//! Configuration values, threaded explicitly into each component at
//! construction. Loading them from disk, and turning addresses into
//! sockets, happens outside the library.
use vstd::prelude::*;

verus! {

/// Configuration for the admin server.
#[derive(Debug, Clone)]
pub struct AdminConfig {
    pub port: u16,
    pub listen_address: String,
}

impl Default for AdminConfig {
    fn default() -> (r: Self)
        ensures
            r.port == 5800,
            r.listen_address@ == "0.0.0.0"@,
    {
        let listen_address: &str = "0.0.0.0";
        AdminConfig { port: 5800, listen_address: listen_address.to_owned() }
    }
}

/// Configuration for the lobby server.
#[derive(Debug, Clone)]
pub struct LobbyConfig {
    pub port: u16,
    pub listen_address: String,
}

impl Default for LobbyConfig {
    fn default() -> (r: Self)
        ensures
            r.port == 54994,
            r.listen_address@ == "0.0.0.0"@,
    {
        let listen_address: &str = "0.0.0.0";
        LobbyConfig { port: 54994, listen_address: listen_address.to_owned() }
    }
}

/// Configuration for the login server.
#[derive(Debug, Clone)]
pub struct LoginConfig {
    pub port: u16,
    pub listen_address: String,
    /// Public-facing domain of the server.
    pub server_name: String,
}

impl Default for LoginConfig {
    fn default() -> (r: Self)
        ensures
            r.port == 6700,
            r.listen_address@ == "0.0.0.0"@,
            r.server_name@ == "ffxiv-login.square.localhost"@,
    {
        let listen_address: &str = "0.0.0.0";
        let server_name: &str = "ffxiv-login.square.localhost";
        LoginConfig {
            port: 6700,
            listen_address: listen_address.to_owned(),
            server_name: server_name.to_owned(),
        }
    }
}

/// Configuration for the patch server.
#[derive(Debug, Clone)]
pub struct PatchConfig {
    pub port: u16,
    pub listen_address: String,
    /// Publicly accessible URL to download patches from.
    pub patch_dl_url: String,
    /// Location of the patches directory on disk.
    pub patches_location: String,
    pub game_server_name: String,
    pub boot_server_name: String,
}

impl Default for PatchConfig {
    fn default() -> (r: Self)
        ensures
            r.port == 6900,
            r.listen_address@ == "0.0.0.0"@,
            r.patch_dl_url@ == "patch-dl.ffxiv.localhost"@,
            r.patches_location@ == "patches"@,
            r.boot_server_name@ == "patch-bootver.ffxiv.localhost"@,
            r.game_server_name@ == "patch-gamever.ffxiv.localhost"@,
    {
        let listen_address: &str = "0.0.0.0";
        let patch_dl_url: &str = "patch-dl.ffxiv.localhost";
        let patches_location: &str = "patches";
        let boot_server_name: &str = "patch-bootver.ffxiv.localhost";
        let game_server_name: &str = "patch-gamever.ffxiv.localhost";
        PatchConfig {
            port: 6900,
            listen_address: listen_address.to_owned(),
            patch_dl_url: patch_dl_url.to_owned(),
            patches_location: patches_location.to_owned(),
            boot_server_name: boot_server_name.to_owned(),
            game_server_name: game_server_name.to_owned(),
        }
    }
}

/// Configuration for the web server.
#[derive(Debug, Clone)]
pub struct WebConfig {
    pub port: u16,
    pub listen_address: String,
    /// Public-facing domain of the server.
    pub server_name: String,
}

impl Default for WebConfig {
    fn default() -> (r: Self)
        ensures
            r.port == 5801,
            r.listen_address@ == "0.0.0.0"@,
            r.server_name@ == "ffxiv.localhost"@,
    {
        let listen_address: &str = "0.0.0.0";
        let server_name: &str = "ffxiv.localhost";
        WebConfig {
            port: 5801,
            listen_address: listen_address.to_owned(),
            server_name: server_name.to_owned(),
        }
    }
}

/// Configuration for the world server.
#[derive(Debug, Clone)]
pub struct WorldConfig {
    pub port: u16,
    pub listen_address: String,
    pub server_name: String,
    /// The world's id in the client's world table.
    pub world_id: u16,
    /// Location of the scripts directory.
    pub scripts_location: String,
    /// Port of the admin command server.
    pub rcon_port: u16,
    /// Password of the admin command server; left blank it is disabled.
    pub rcon_password: String,
}

impl WorldConfig {
    pub fn default_port() -> (r: u16)
        ensures
            r == 7100,
    {
        7100
    }

    pub fn default_listen_address() -> (r: String)
        ensures
            r@ == "0.0.0.0"@,
    {
        let s: &str = "0.0.0.0";
        s.to_owned()
    }

    pub fn default_server_name() -> (r: String)
        ensures
            r@ == "127.0.0.1"@,
    {
        let s: &str = "127.0.0.1";
        s.to_owned()
    }

    pub fn default_world_id() -> (r: u16)
        ensures
            r == 63,
    {
        63
    }

    pub fn default_scripts_location() -> (r: String)
        ensures
            r@ == "resources/scripts"@,
    {
        let s: &str = "resources/scripts";
        s.to_owned()
    }

    pub fn default_rcon_port() -> (r: u16)
        ensures
            r == 25575,
    {
        25575
    }

    pub fn default_rcon_password() -> (r: String)
        ensures
            r@ == Seq::<char>::empty(),
    {
        String::new()
    }
}

impl Default for WorldConfig {
    fn default() -> (r: Self)
        ensures
            r.port == 7100,
            r.listen_address@ == "0.0.0.0"@,
            r.server_name@ == "127.0.0.1"@,
            r.world_id == 63,
            r.scripts_location@ == "resources/scripts"@,
            r.rcon_port == 25575,
            r.rcon_password@ == Seq::<char>::empty(),
    {
        WorldConfig {
            port: Self::default_port(),
            listen_address: Self::default_listen_address(),
            server_name: Self::default_server_name(),
            world_id: Self::default_world_id(),
            scripts_location: Self::default_scripts_location(),
            rcon_port: Self::default_rcon_port(),
            rcon_password: Self::default_rcon_password(),
        }
    }
}

/// Configuration for the game filesystem.
#[derive(Debug, Clone)]
pub struct FilesystemConfig {
    /// Path to the game directory.
    pub game_path: String,
}

impl Default for FilesystemConfig {
    fn default() -> (r: Self)
        ensures
            r.game_path@ == Seq::<char>::empty(),
    {
        FilesystemConfig { game_path: String::new() }
    }
}

/// Global and all-encompassing config. Settings that affect all servers
/// belong here.
#[derive(Debug, Clone)]
pub struct Config {
    pub filesystem: FilesystemConfig,
    pub admin: AdminConfig,
    pub lobby: LobbyConfig,
    pub login: LoginConfig,
    pub patch: PatchConfig,
    pub web: WebConfig,
    pub world: WorldConfig,
    /// Enable validity checks for versions and file hashes.
    pub enforce_validity_checks: bool,
}

impl Config {
    pub fn default_enforce_validity_checks() -> (r: bool)
        ensures
            r == true,
    {
        true
    }
}

impl Default for Config {
    fn default() -> (r: Self)
        ensures
            r.enforce_validity_checks == true,
            r.world.port == 7100,
            r.world.world_id == 63,
            r.lobby.port == 54994,
    {
        Config {
            filesystem: FilesystemConfig::default(),
            admin: AdminConfig::default(),
            lobby: LobbyConfig::default(),
            login: LoginConfig::default(),
            patch: PatchConfig::default(),
            web: WebConfig::default(),
            world: WorldConfig::default(),
            enforce_validity_checks: Self::default_enforce_validity_checks(),
        }
    }
}

} // verus!
