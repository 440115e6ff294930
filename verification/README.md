# cheetah

Viewer of Mexican digital tax receipts (CFDI 3.3), with its logic verified
in Verus.

- `src/` is the verified library: reading the receipt's XML (`lectura`,
  `xml`), the SAT catalogues (`catalogos`, `campos`), the calls that fill the
  viewer's page (`plantillas`, `comprobante`), the query to the SAT and the
  reading of its answer (`sat`), and text utilities (`texto`). Money amounts
  are formatted by the `format_money` crate (`dinero`) and XML is parsed by
  `xmltree`.
- `app/` is the desktop program: the window (`web-view`), the file dialogs
  (`tinyfiledialogs`), the file reading and the HTTP request (`ureq`). The
  program compiles in the page from `app/app/app.html`, `styles.css`,
  `qrcode.min.js` and `app.js`; these files are not part of this crate and
  must be put there before it builds.
