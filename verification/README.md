# brosdk

Verified session logic for the BroSDK browser-environment SDK and its Tauri demo.

- `src/text.rs`: decimal numbers, JSON string literals (through serde_json) and lossy UTF-8.
- `src/manager.rs`: the SDK session — loading the native library at most once, the
  JSON documents handed to each native call, and how each reply becomes a result.
- `src/commands.rs`: the desktop commands — application state, REST request bodies,
  reading REST replies, and the answers of `init_sdk`, `create_env`, `start_env`, `stop_env`.
- `app/`: the Tauri program, the native binding (`libloading`), HTTP (`reqwest`) and
  callbacks, which call the library for every decision.
