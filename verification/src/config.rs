use vstd::prelude::*;

verus! {

/// Where the client finds the service and its local cache.
pub struct Config {
    pub api_url: String,
    pub database_url: String,
}

impl Config {
    /// The fixed settings of the client.
    pub fn load() -> (config: Config)
        ensures
            config.api_url@ == "http://localhost:3000"@,
            config.database_url@ == "sqlite://cache.db"@,
    {
        Config {
            api_url: "http://localhost:3000".to_owned(),
            database_url: "sqlite://cache.db".to_owned(),
        }
    }
}

} // verus!
