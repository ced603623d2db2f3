# cloudillo

The decision core of a federated, self-hosted collaboration platform, written in Verus: what an
action means and who gets it, how calendars are read, written and synchronised, who may sign in
and with which rights, and what an administrator may do. Every rule is an executable function with
a contract that Verus proves.

## Layout

- `src/` is the verified library.
  - `action/`: the action language (`dsl/`), creating, storing, delivering and showing actions,
    hooks and their native decisions (`native_hooks/`), and failures of key fetches.
  - `calendar/`: dates and times (`time`), iCalendar components to and from content lines (`ical`,
    `ical_writer`) and what comes back of them (`round_trip`, `searchable`), the structured
    interface (`handler`) and CalDAV (`caldav`).
  - `auth/`: passwords and sessions (`handler`), access tokens (`access`), sign-in by another
    device (`qr_login`), passkeys (`webauthn`), secrets and signed claims (`secrets`).
  - `admin/`: certificates, mail, invitations, maintenance and tenants.
  - `mail`: mails and the references behind the links in them.
  - `text`, `decimal`, `json`, `str_map`, `types`: what the others build on.
- `app/` is ordinary Rust around the library: HTTP endpoints, tasks, shared state and the traits
  behind which storage and the other services of a node stand.
- `tests/` runs the library with the crates that it is linked to.

## How decisions are cut

A function of the library never reads storage or the network. It takes what was looked up as plain
values and returns what to do: a result, a plan of steps, or the next state of a run that the
program carries out and reports back on. The few that read the clock or draw random bytes say of
the outcome what holds whatever came back, and leave the rest to a function that takes it as an
argument. Times are seconds since the Unix epoch, or milliseconds of a clock that never goes back
where a function says so.

Contracts are stated over the characters of texts (`Seq<char>`) and over views of the data types.
Laws that relate several functions are proof functions whose names start with `law_`.

What other crates compute is used through small trusted functions. Each names the outside function
and says in its contract what is relied upon: `chrono` for dates, `serde_json` and `serde_with` for
JSON text, `regex` for patterns, `lru` and `dashmap` for collections, `sha2`, `rand`, `base64` and
`jsonwebtoken` for secrets and signed claims, and `webauthn-rs` for passkeys.
