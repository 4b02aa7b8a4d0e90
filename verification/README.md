# analytics_backend

A web-analytics backend: tracker events arrive in batches over HTTP, are
located (from the browser's own report, GPS reverse geocoding, or a lookup of
the client's address) and stored in ClickHouse; analytics queries read them
back.

`src/` is the library, verified with Verus: resolving the client address
behind proxies (`ip_resolver`, `headers`, `controllers`), reading the answers
of the geolocation services (`geoip`, `services`), settling each event's
location (`controller`), the rows stored for events (`models`, `service`,
`tracker_models`), the funnel count's bookkeeping (`repository`), error
answers (`errors`), settings (`config`) and the text operations they rest on
(`text`).

`app/` is the server around it: the axum routers and handlers, the HTTP
calls to the geolocation services, the ClickHouse queries, and the serde
forms of the library's types.
