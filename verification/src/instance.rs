//! Configuration of game instances

use vstd::prelude::*;

use crate::java::JavaInstallationKind;

verus! {

/// The default main class for the server
pub const DEFAULT_SERVER_MAIN_CLASS: &'static str = "net.minecraft.server.Main";

/// Side of the game
#[derive(Debug, Clone, Copy, PartialEq, Eq, Structural)]
pub enum Side {
    Client,
    Server,
}

/// A world, server or realm to join directly when the game starts
#[derive(Debug, Clone, PartialEq, Eq)]
pub enum QuickPlayType {
    /// Join a singleplayer world
    World {
        /// The world to join
        world: String,
    },
    /// Join a server
    Server {
        /// The server address
        server: String,
        /// The server port
        port: Option<u16>,
    },
    /// Join a realm
    Realm {
        /// The realm to join
        realm: String,
    },
    /// Don't do any quick play
    Disabled,
}

/// A command that wraps the launch command
#[derive(Debug, Clone, PartialEq, Eq)]
pub struct WrapperCommand {
    /// The command to run
    pub cmd: String,
    /// The arguments for the command
    pub args: Vec<String>,
}

/// Options for launching an instance
#[derive(Debug, Clone)]
pub struct LaunchConfiguration {
    /// The Java installation to launch with
    pub java: JavaInstallationKind,
    /// Additional arguments for the JVM
    pub jvm_args: Vec<String>,
    /// Additional arguments for the game
    pub game_args: Vec<String>,
    /// Environment variables for the game process
    pub env: Vec<(String, String)>,
    /// A command that wraps the launch command
    pub wrapper: Option<WrapperCommand>,
    /// What to join when the game starts
    pub quick_play: QuickPlayType,
}

impl LaunchConfiguration {
    /// Construct a new LaunchConfiguration with default settings
    pub fn new() -> (r: LaunchConfiguration)
        ensures
            r.java is Auto,
            r.jvm_args@.len() == 0,
            r.game_args@.len() == 0,
            r.env@.len() == 0,
            r.wrapper is None,
            r.quick_play is Disabled,
    {
        LaunchConfiguration {
            java: JavaInstallationKind::Auto,
            jvm_args: Vec::new(),
            game_args: Vec::new(),
            env: Vec::new(),
            wrapper: None,
            quick_play: QuickPlayType::Disabled,
        }
    }
}

/// Resolution for a client window
#[derive(Clone, Debug, Copy, PartialEq, Eq, Structural)]
pub struct WindowResolution {
    /// The width of the window
    pub width: u32,
    /// The height of the window
    pub height: u32,
}

impl WindowResolution {
    /// Construct a new WindowResolution
    pub fn new(width: u32, height: u32) -> (r: WindowResolution)
        ensures
            r.width == width,
            r.height == height,
    {
        WindowResolution { width, height }
    }
}

/// Configuration for the client window
#[derive(Default, Clone, Copy, Debug, PartialEq, Eq, Structural)]
pub struct ClientWindowConfig {
    /// The resolution of the window
    pub resolution: Option<WindowResolution>,
}

impl ClientWindowConfig {
    /// Construct a new ClientWindowConfig with default settings
    pub fn new() -> (r: ClientWindowConfig)
        ensures
            r.resolution is None,
    {
        ClientWindowConfig { resolution: None }
    }
}

/// Configuration for what side an instance is, along with configuration
/// specific to that side
#[derive(Debug, Clone)]
pub enum InstanceKind {
    /// Client-side
    Client {
        /// Configuration for the client window
        window: ClientWindowConfig,
    },
    /// Server-side
    Server {
        /// Whether to automatically agree to the server EULA and create
        /// the eula.txt file set to true in the server directory
        create_eula: bool,
        /// Whether to display the default server GUI
        show_gui: bool,
    },
}

impl InstanceKind {
    /// Get the side of this kind
    pub fn get_side(&self) -> (r: Side)
        ensures
            r == (if self is Client {
                Side::Client
            } else {
                Side::Server
            }),
    {
        match self {
            InstanceKind::Client { .. } => Side::Client,
            InstanceKind::Server { .. } => Side::Server,
        }
    }
}

/// Configuration for an instance
#[derive(Debug)]
pub struct InstanceConfiguration {
    /// Configuration for the instance side
    pub side: InstanceKind,
    /// The directory where the instance will be stored and launched from
    pub path: String,
    /// Launch options for the instance
    pub launch: LaunchConfiguration,
    /// JAR path override. If this is set, the default JAR file will not be downloaded
    pub jar_path: Option<String>,
    /// Java main class override
    pub main_class: Option<String>,
    /// Additional libraries to add to the classpath.
    /// These must be absolute paths to Java libraries already installed on the
    /// system, and will not be installed automatically
    pub additional_libs: Vec<String>,
}

impl InstanceConfiguration {
    /// Construct a new InstanceConfiguration with default settings
    pub fn new(side: InstanceKind, path: String) -> (r: InstanceConfiguration)
        ensures
            r.side == side,
            r.path == path,
            r.launch.java is Auto,
            r.launch.jvm_args@.len() == 0,
            r.launch.game_args@.len() == 0,
            r.launch.env@.len() == 0,
            r.launch.wrapper is None,
            r.launch.quick_play is Disabled,
            r.jar_path is None,
            r.main_class is None,
            r.additional_libs@.len() == 0,
    {
        InstanceConfiguration {
            side,
            path,
            launch: LaunchConfiguration::new(),
            jar_path: None,
            main_class: None,
            additional_libs: Vec::new(),
        }
    }
}

/// Simple builder for the configuration
#[derive(Debug)]
pub struct InstanceConfigBuilder {
    config: InstanceConfiguration,
}

impl InstanceConfigBuilder {
    /// The configuration built so far.
    pub closed spec fn config(&self) -> InstanceConfiguration {
        self.config
    }

    /// Start a new ConfigBuilder with default configuration
    pub fn new(side: InstanceKind, path: String) -> (r: InstanceConfigBuilder)
        ensures
            r.config().side == side,
            r.config().path == path,
            r.config().launch.java is Auto,
            r.config().launch.jvm_args@.len() == 0,
            r.config().launch.game_args@.len() == 0,
            r.config().launch.env@.len() == 0,
            r.config().launch.wrapper is None,
            r.config().launch.quick_play is Disabled,
            r.config().jar_path is None,
            r.config().main_class is None,
            r.config().additional_libs@.len() == 0,
    {
        InstanceConfigBuilder { config: InstanceConfiguration::new(side, path) }
    }

    /// Finish building and get the configuration
    pub fn build(self) -> (r: InstanceConfiguration)
        ensures
            r == self.config(),
    {
        self.config
    }

    /// Set the launch options for the instance
    pub fn launch_config(self, launch_config: LaunchConfiguration) -> (r: InstanceConfigBuilder)
        ensures
            r.config() == (InstanceConfiguration { launch: launch_config, ..self.config() }),
    {
        let mut s = self;
        s.config.launch = launch_config;
        s
    }

    /// Override the default JAR path
    pub fn jar_path(self, jar_path: String) -> (r: InstanceConfigBuilder)
        ensures
            r.config() == (InstanceConfiguration { jar_path: Some(jar_path), ..self.config() }),
    {
        let mut s = self;
        s.config.jar_path = Some(jar_path);
        s
    }

    /// Override the default main class
    pub fn main_class(self, main_class: String) -> (r: InstanceConfigBuilder)
        ensures
            r.config() == (InstanceConfiguration { main_class: Some(main_class), ..self.config() }),
    {
        let mut s = self;
        s.config.main_class = Some(main_class);
        s
    }

    /// Add additional libraries to the game. They must already be installed
    /// on the system.
    pub fn additional_libs(self, additional_libs: Vec<String>) -> (r: InstanceConfigBuilder)
        ensures
            r.config().side == self.config().side,
            r.config().path == self.config().path,
            r.config().launch == self.config().launch,
            r.config().jar_path == self.config().jar_path,
            r.config().main_class == self.config().main_class,
            r.config().additional_libs@ == self.config().additional_libs@ + additional_libs@,
    {
        let mut s = self;
        let mut libs = additional_libs;
        s.config.additional_libs.append(&mut libs);
        s
    }
}

/// The main class to launch an instance with: the configured override, or else the
/// client's main class from its metadata, or the default server main class.
pub open spec fn spec_main_class(
    override_class: Option<Seq<char>>,
    side: Side,
    client_main_class: Seq<char>,
) -> Seq<char> {
    match override_class {
        Some(c) => c,
        None => match side {
            Side::Client => client_main_class,
            Side::Server => DEFAULT_SERVER_MAIN_CLASS@,
        },
    }
}

/// Chooses the main class to launch an instance with
pub fn choose_main_class(config: &InstanceConfiguration, client_main_class: &str) -> (r: String)
    ensures
        r@ == spec_main_class(
            crate::text::opt_str_view(config.main_class),
            if config.side is Client {
                Side::Client
            } else {
                Side::Server
            },
            client_main_class@,
        ),
{
    match &config.main_class {
        Some(c) => c.clone(),
        None => match config.side.get_side() {
            Side::Client => crate::text::owned(client_main_class),
            Side::Server => crate::text::owned(DEFAULT_SERVER_MAIN_CLASS),
        },
    }
}

/// Where a server instance keeps the game JAR that it launches: `server.jar` in the
/// instance directory
pub fn server_jar_path(instance_dir: &str) -> (r: String)
    ensures
        r@ == crate::paths::spec_join(instance_dir@, "server.jar"@),
{
    crate::paths::join_path(instance_dir, "server.jar")
}

/// Whether loading a server instance puts the game JAR in place again, by a link or a
/// copy: only where the JAR lives elsewhere and the update manager says that the file
/// in the instance needs updating
pub fn server_jar_needs_update(
    server_jar: &str,
    jar_path: &str,
    manager: &crate::update::UpdateManager,
    server_jar_exists: bool,
) -> (r: bool)
    ensures
        r == (server_jar@ != jar_path@ && crate::update::spec_should_update(
            manager.spec_force(),
            manager.updated_files().contains(server_jar@),
            server_jar_exists,
        )),
{
    !crate::text::str_eq(server_jar, jar_path) && manager.should_update_file(server_jar, server_jar_exists)
}

} // verus!
