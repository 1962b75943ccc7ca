//! Configuration for different parts of the core library

use vstd::prelude::*;

verus! {

/// Configuration for different parts of the core library
#[derive(Debug, Clone, PartialEq, Eq)]
pub struct Configuration {
    /// The Microsoft client ID to use for Microsoft authentication
    pub ms_client_id: String,
    /// Whether to force the reinstallation of files
    pub force_reinstall: bool,
    /// Whether to allow offline installs
    pub allow_offline: bool,
    /// Whether to censor user credentials in output messages and logs
    pub censor_secrets: bool,
}

impl Configuration {
    /// The default configuration with the given Microsoft client ID: nothing is
    /// reinstalled by force, installs are online, and credentials are censored
    pub fn new(ms_client_id: String) -> (r: Configuration)
        ensures
            r.ms_client_id@ == ms_client_id@,
            !r.force_reinstall,
            !r.allow_offline,
            r.censor_secrets,
    {
        Configuration { ms_client_id, force_reinstall: false, allow_offline: false, censor_secrets: true }
    }

    /// Get a builder for the configuration
    pub fn builder(ms_client_id: String) -> (r: ConfigBuilder)
        ensures
            r.config().ms_client_id@ == ms_client_id@,
            !r.config().force_reinstall,
            !r.config().allow_offline,
            r.config().censor_secrets,
    {
        ConfigBuilder::new(ms_client_id)
    }
}

/// Simple builder for the configuration
#[derive(Debug, Clone)]
pub struct ConfigBuilder {
    config: Configuration,
}

impl ConfigBuilder {
    /// The configuration built so far.
    pub closed spec fn config(&self) -> Configuration {
        self.config
    }

    /// Start a new ConfigBuilder with default configuration
    pub fn new(ms_client_id: String) -> (r: ConfigBuilder)
        ensures
            r.config().ms_client_id@ == ms_client_id@,
            !r.config().force_reinstall,
            !r.config().allow_offline,
            r.config().censor_secrets,
    {
        ConfigBuilder { config: Configuration::new(ms_client_id) }
    }

    /// Finish building and get the configuration
    pub fn build(self) -> (r: Configuration)
        ensures
            r == self.config(),
    {
        self.config
    }

    /// Set the Microsoft client ID to use for Microsoft / XBox Live authentication
    pub fn ms_client_id(self, ms_client_id: String) -> (r: ConfigBuilder)
        ensures
            r.config() == (Configuration { ms_client_id, ..self.config() }),
    {
        let mut b = self;
        b.config.ms_client_id = ms_client_id;
        b
    }

    /// Set whether to force the reinstall of files
    pub fn force_reinstall(self, force_reinstall: bool) -> (r: ConfigBuilder)
        ensures
            r.config() == (Configuration { force_reinstall, ..self.config() }),
    {
        let mut b = self;
        b.config.force_reinstall = force_reinstall;
        b
    }

    /// Set whether to allow offline installs
    pub fn allow_offline(self, allow_offline: bool) -> (r: ConfigBuilder)
        ensures
            r.config() == (Configuration { allow_offline, ..self.config() }),
    {
        let mut b = self;
        b.config.allow_offline = allow_offline;
        b
    }

    /// Set whether to censor user credentials in output messages and logs
    pub fn censor_secrets(self, censor_secrets: bool) -> (r: ConfigBuilder)
        ensures
            r.config() == (Configuration { censor_secrets, ..self.config() }),
    {
        let mut b = self;
        b.config.censor_secrets = censor_secrets;
        b
    }
}

} // verus!
