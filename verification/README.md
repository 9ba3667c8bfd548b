# moyu_gateway

An HTTP gateway that forwards `/{service}/{path}` requests to services
registered in a MySQL table and published in a Redis cache, with a small
management API (`/sys_service/...`) to register, change, enable, disable and
remove services.

- `src/` is the verified library (Verus):
  - `model` — the service record, the request bodies, the settings;
  - `keys` — the cache key of a service (name followed by path);
  - `urls` — URL parsing through the `url` crate and the default scheme of
    service addresses;
  - `routing` — the search for the service that serves a request: the cache
    keys probed, in order, and the first hit;
  - `proxy` — the upstream URL of a forwarded request, preflight handling;
  - `service` — the management operations as step functions over the answers
    of the database and the cache; `service_laws` — their multi-step properties;
  - `consistency` — the table and the cache as maps, each operation run
    against them, and the proof that they stay in step;
  - `gateway_laws` — a service registered under `/*` catches every request to
    its name;
  - `cache`, `error`, `text` — cache read results, errors, string helpers.
- `app/` is the process around it: actix-web server and handlers, the Redis and
  rbatis clients, and the loop that carries out the operations' requests.
- `tests/` runs the library on concrete values.

The process reads its settings from `application.json5` in its working
directory.
