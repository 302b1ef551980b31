# audio_service

An audio hosting service: users sign up and log in through Keycloak, upload
audio files to S3-compatible storage (MinIO), list, search, stream, share and
collect them.

- `src/` is the verified library (Verus). It holds every decision the service
  makes, over plain values: request validation (`auth`), upload acceptance and
  object naming (`upload`), access, listing, search and stream rules
  (`audio`), bucket choice (`storage`), identity-provider URLs, forms and
  status meanings (`keycloak`), bearer-token extraction and token validation
  against the published signing keys (`oauth`), and the error type (`error`).
- `app/` is the HTTP server (axum, sqlx, aws-sdk-s3, reqwest): it reads the
  environment, talks to PostgreSQL, MinIO and Keycloak, and asks the library
  what to do with each request and answer.
- `tests/` exercises the library on concrete values.
