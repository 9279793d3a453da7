# AgnesStudio library

AgnesStudio is a desktop client for the Agnes image and video generation
service. This crate holds its verified core; the window and the network,
file and update plumbing sit in `app/`.

Modules under `src/`:

- `text` — string primitives with specifications (trimming, replacement,
  decimal notation, integer parsing).
- `i18n` — the bilingual interface texts and `{name}` placeholder filling.
- `theme` — theme choice and the style sheet.
- `ratelimits` — the rate-limit notes shown in the settings.
- `config` — the user settings, their defaults and the normalisation after
  loading.
- `api` — request bodies for the image and video endpoints and the
  decisions taken on the answers (retries, errors, task status, downloads).
- `studio` — the forms: resolved sizes and models, input checks, what a
  request records in the settings and what the settings restore, task
  polling back-off, byte ranges and history navigation.
- `media` — base64 data URIs, image previews and file names, release notes.
- `updater` — version comparison and the choice of the installer to fetch.

Every function in `src/` is verified by Verus against its contract; calls
into `base64`, `image` and `pulldown-cmark` go through a few trusted
wrappers whose contracts are documented where they are declared.
