//! Settings of the serving process.

use vstd::prelude::*;

verus! {

/// Where the server listens, what it is called and where its files lie.
pub struct WebUIConfig {
    /// Port number the server binds to.
    pub port: u16,
    /// IPv4 address the server binds to, as four octets.
    pub host: [u8; 4],
    /// Title of the web application.
    pub title: String,
    /// Directory that holds the static files.
    pub static_dir: String,
}

impl Default for WebUIConfig {
    /// Port 3030 on the loopback address, titled "Web UI", with the files
    /// under "./static".
    fn default() -> (config: Self)
        ensures
            config.port == 3030,
            config.host@ == seq![127u8, 0u8, 0u8, 1u8],
            config.title@ == "Web UI"@,
            config.static_dir@ == "./static"@,
    {
        let config = WebUIConfig {
            port: 3030,
            host: [127, 0, 0, 1],
            title: "Web UI".to_string(),
            static_dir: "./static".to_string(),
        };
        assert(config.host@ =~= seq![127u8, 0u8, 0u8, 1u8]);
        config
    }
}

impl WebUIConfig {
    /// The same settings with another port.
    pub fn with_port(self, port: u16) -> (config: Self)
        ensures
            config.port == port,
            config.host == self.host,
            config.title == self.title,
            config.static_dir == self.static_dir,
    {
        let mut config = self;
        config.port = port;
        config
    }

    /// The same settings with another address.
    pub fn with_host(self, host: [u8; 4]) -> (config: Self)
        ensures
            config.port == self.port,
            config.host == host,
            config.title == self.title,
            config.static_dir == self.static_dir,
    {
        let mut config = self;
        config.host = host;
        config
    }

    /// The same settings with another title.
    pub fn with_title(self, title: String) -> (config: Self)
        ensures
            config.port == self.port,
            config.host == self.host,
            config.title == title,
            config.static_dir == self.static_dir,
    {
        let mut config = self;
        config.title = title;
        config
    }

    /// The same settings with another directory of static files.
    pub fn with_static_dir(self, static_dir: String) -> (config: Self)
        ensures
            config.port == self.port,
            config.host == self.host,
            config.title == self.title,
            config.static_dir == static_dir,
    {
        let mut config = self;
        config.static_dir = static_dir;
        config
    }
}

} // verus!
