//! Viewer of Mexican digital tax receipts (CFDI 3.3).
//!
//! The library reads the XML of a receipt, looks its codes up in the SAT
//! catalogues, writes the calls that fill the viewer's page and the query
//! that asks the SAT whether the receipt is in force, and reads the answer.
pub mod campos;
pub mod catalogos;
pub mod comprobante;
pub mod dinero;
pub mod lectura;
pub mod plantillas;
pub mod sat;
pub mod texto;
pub mod xml;
