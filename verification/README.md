# epsg-utils

Parsing, writing and lookup of EPSG coordinate reference system definitions,
verified with Verus.

- `src/` is the verified library.
  - `crs`, `model`: the CRS types and their mathematical views.
  - `text`, `decimal`: the character-level reader and exact decimal numbers.
  - `wkt2/`: the WKT2 reader (`parse_*`), the writer, and `roundtrip`, which
    proves that the nodes up to a base geodetic CRS and a conversion (quoted
    texts, numbers, identifiers, units, extents, usages, ellipsoids, prime
    meridians, axis meridians, reference frames, ensembles, dynamic nodes,
    methods and parameters) are read back as they were written;
    `roundtrip_crs` and `roundtrip_compound` carry this to coordinate systems,
    axes and whole CRSs of every kind, up to `law_crs_reads_back`.
  - `wkt1/`: the WKT1 (GDAL and ESRI) reader, its grammar as spec functions,
    and the name and method tables that normalise it to EPSG names.
  - `projjson`, `projjson_reader`, `json`: PROJJSON writing for every kind
    of CRS (projected, geographic, geodetic, vertical and compound), and
    reading through `serde_json`.
  - `definitions`, `store_writer`, `generator`: the compressed definition
    stores, read and written (through `flate2`), and the generator's rules.
  - `epsg`: the EPSG code of a CRS.
- `tests/` runs the library on concrete inputs.
- `app/` holds file I/O and `serde_json` values around the library, and the
  generator that builds the stores from a directory of WKT2 files.
