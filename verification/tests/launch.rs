use mcvm::launch_process::{censor_args, get_launch_props, launch_command};
use mcvm::instance::{
    ClientWindowConfig, InstanceConfigBuilder, InstanceConfiguration, InstanceKind,
    LaunchConfiguration, QuickPlayType, Side, WindowResolution, WrapperCommand,
};
use mcvm::java::{JavaInstallationKind, JavaInstallation, JavaMajorVersion};
use mcvm::launch_args::{
    create_quick_play_args, fill_logging_path_arg, process_arg, replace_arg_placeholders,
    ArgParams, ArgumentItem, ConditionalArguments, FeatureRule, GameRule, OsRule, QuickPlayWarning,
    RuleAction,
};
use mcvm::user::{User, UserKind};

fn params(user: Option<User>, quick_play: QuickPlayType, resolution: Option<WindowResolution>) -> ArgParams {
    ArgParams {
        classpath: "a.jar:b.jar".to_string(),
        internal_dir: "/data/internal".to_string(),
        version: "1.20.1".to_string(),
        launch_dir: "/inst".to_string(),
        assets_dir: "/data/assets".to_string(),
        side: InstanceKind::Client { window: ClientWindowConfig { resolution } },
        quick_play,
        user,
        os: "linux".to_string(),
        arch: "x86_64".to_string(),
    }
}

fn no_features() -> FeatureRule {
    FeatureRule {
        has_custom_resolution: None,
        is_demo_user: None,
        has_quick_play_support: None,
        is_quick_play_singleplayer: None,
        is_quick_play_multiplayer: None,
        is_quick_play_realms: None,
    }
}

#[test]
fn common_placeholders_are_filled() {
    let p = params(None, QuickPlayType::Disabled, None);
    assert_eq!(replace_arg_placeholders("${launcher_name}-${launcher_version}", &p), "mcvm-alpha");
    assert_eq!(replace_arg_placeholders("-cp ${classpath}", &p), "-cp a.jar:b.jar");
    assert_eq!(
        replace_arg_placeholders("-Djava.library.path=${natives_directory}", &p),
        "-Djava.library.path=/data/internal/versions/1.20.1/natives"
    );
    assert_eq!(replace_arg_placeholders("${game_assets}", &p), "/data/assets/virtual/legacy");
    assert_eq!(replace_arg_placeholders("${user_properties}", &p), "\"\"");
    assert_eq!(replace_arg_placeholders("${resolution_width}", &p), "${resolution_width}");
}

#[test]
fn resolution_and_quick_play_placeholders() {
    let p = params(
        None,
        QuickPlayType::Server { server: "mc.example.com".to_string(), port: Some(25565) },
        Some(WindowResolution::new(1280, 720)),
    );
    assert_eq!(replace_arg_placeholders("${resolution_width}x${resolution_height}", &p), "1280x720");
    assert_eq!(replace_arg_placeholders("${quickPlayMultiplayer}", &p), "mc.example.com:25565");
    assert_eq!(replace_arg_placeholders("${quickPlaySingleplayer}", &p), "");
}

#[test]
fn user_placeholders() {
    let mut user = User::new(UserKind::Microsoft { xbox_uid: Some("xuid".to_string()) }, "id", "Steve");
    user.set_uuid("uuid-1");
    user.access_token = Some("token".to_string());
    let p = params(Some(user), QuickPlayType::Disabled, None);
    assert_eq!(
        replace_arg_placeholders("${auth_player_name} ${auth_uuid} ${auth_access_token} ${auth_xuid}", &p),
        "Steve uuid-1 token xuid"
    );

    let p = params(Some(User::new(UserKind::Demo, "id", "Alex")), QuickPlayType::Disabled, None);
    assert_eq!(replace_arg_placeholders("--accessToken ${auth_access_token}", &p), "");
    assert_eq!(replace_arg_placeholders("${auth_player_name}", &p), "Alex");

    let p = params(None, QuickPlayType::Disabled, None);
    assert_eq!(replace_arg_placeholders("--username ${auth_player_name}", &p), "UnknownUser");
    assert_eq!(replace_arg_placeholders("--uuid ${auth_uuid}", &p), "");
    assert_eq!(replace_arg_placeholders("--demo", &p), "--demo");
}

#[test]
fn conditional_arguments_follow_rules() {
    let p = params(None, QuickPlayType::Disabled, None);
    let arg = ArgumentItem::Conditional(ConditionalArguments {
        rules: vec![GameRule {
            action: RuleAction::Allow,
            os: OsRule { name: Some("linux".to_string()), arch: None },
            features: no_features(),
        }],
        value: vec!["-Xss1M".to_string(), "${version_name}".to_string()],
    });
    assert_eq!(process_arg(&arg, &p), vec!["-Xss1M".to_string(), "1.20.1".to_string()]);

    let arg = ArgumentItem::Conditional(ConditionalArguments {
        rules: vec![GameRule {
            action: RuleAction::Allow,
            os: OsRule { name: Some("osx".to_string()), arch: None },
            features: no_features(),
        }],
        value: vec!["-XstartOnFirstThread".to_string()],
    });
    assert!(process_arg(&arg, &p).is_empty());

    let mut features = no_features();
    features.has_custom_resolution = Some(true);
    let arg = ArgumentItem::Conditional(ConditionalArguments {
        rules: vec![GameRule { action: RuleAction::Allow, os: OsRule { name: None, arch: None }, features }],
        value: vec!["--width".to_string(), "${resolution_width}".to_string()],
    });
    assert!(process_arg(&arg, &p).is_empty());
    let p2 = params(None, QuickPlayType::Disabled, Some(WindowResolution::new(800, 600)));
    assert_eq!(process_arg(&arg, &p2), vec!["--width".to_string(), "800".to_string()]);

    assert_eq!(process_arg(&ArgumentItem::Simple("${version_type}".to_string()), &p), vec!["mcvm".to_string()]);
}

#[test]
fn quick_play_args_before_23w14a() {
    let server = QuickPlayType::Server { server: "host".to_string(), port: Some(1234) };
    let (args, warning) = create_quick_play_args(&server, true);
    assert_eq!(args, vec!["--server", "host", "--port", "1234"]);
    assert!(warning.is_none());
    let (args, warning) = create_quick_play_args(&server, false);
    assert!(args.is_empty() && warning.is_none());
    let world = QuickPlayType::World { world: "w".to_string() };
    let (args, warning) = create_quick_play_args(&world, true);
    assert!(args.is_empty());
    assert_eq!(warning, Some(QuickPlayWarning::World));
    assert_eq!(warning.unwrap().message(), "World Quick Play has no effect before 23w14a (1.20)");
}

#[test]
fn logging_path_arg() {
    assert_eq!(
        fill_logging_path_arg("-Dlog4j.configurationFile=${path}".to_string(), "/logs/1.20.xml"),
        "-Dlog4j.configurationFile=/logs/1.20.xml"
    );
}

#[test]
fn java_kind_parse_and_paths() {
    assert_eq!(JavaInstallationKind::parse("auto"), JavaInstallationKind::Auto);
    assert_eq!(JavaInstallationKind::parse("zulu"), JavaInstallationKind::Zulu);
    assert_eq!(
        JavaInstallationKind::parse("/opt/jdk"),
        JavaInstallationKind::Custom { path: "/opt/jdk".to_string() }
    );
    let java = JavaInstallation::new(JavaMajorVersion::new(17), "/opt/jdk".to_string());
    assert_eq!(java.get_jvm_path(false), "/opt/jdk/bin/java");
    assert_eq!(java.get_jvm_path(true), "/opt/jdk/bin/java.exe");
    assert_eq!(java.get_major_version().0, 17);
    assert_eq!(java.get_path(), "/opt/jdk");
    assert!(mcvm::java::is_linux_java_dir("java-17-openjdk-amd64", "17"));
    assert!(!mcvm::java::is_linux_java_dir("java-1.17-openjdk", "17"));
    assert!(mcvm::java::is_windows_java_dir("jdk-17.0.2", "17"));
    assert!(!mcvm::java::is_windows_java_dir("jre-17.0.2", "17"));
}

#[test]
fn instance_config_builder() {
    let config = InstanceConfigBuilder::new(
        InstanceKind::Server { create_eula: true, show_gui: false },
        "/inst".to_string(),
    )
    .jar_path("/jars/server.jar".to_string())
    .main_class("a.Main".to_string())
    .additional_libs(vec!["x.jar".to_string()])
    .additional_libs(vec!["y.jar".to_string()])
    .build();
    assert_eq!(config.jar_path, Some("/jars/server.jar".to_string()));
    assert_eq!(config.additional_libs, vec!["x.jar".to_string(), "y.jar".to_string()]);
    assert_eq!(config.side.get_side(), Side::Server);
    assert_eq!(mcvm::instance::choose_main_class(&config, "client.Main"), "a.Main");
    let plain = InstanceConfiguration::new(
        InstanceKind::Client { window: ClientWindowConfig::new() },
        "/c".to_string(),
    );
    assert_eq!(mcvm::instance::choose_main_class(&plain, "client.Main"), "client.Main");
    assert!(matches!(LaunchConfiguration::new().java, JavaInstallationKind::Auto));
}

#[test]
fn server_launch_properties() {
    let props = get_launch_props("lib/a.jar:server.jar");
    assert_eq!(props.jvm_args, vec!["-cp".to_string(), "lib/a.jar:server.jar".to_string()]);
    assert_eq!(props.game_args, vec!["nogui".to_string()]);
    assert!(props.additional_env_vars.is_empty());
}

#[test]
fn launch_command_order() {
    let props = get_launch_props("cp");
    let wrapper = Some(WrapperCommand { cmd: "gamemoderun".to_string(), args: vec!["-v".to_string()] });
    let (program, args) = launch_command(
        &wrapper,
        "/usr/bin/java",
        &vec!["-Xmx2G".to_string()],
        &props,
        &Some("net.minecraft.server.Main".to_string()),
        &vec!["--port".to_string(), "25566".to_string()],
    );
    assert_eq!(program, "gamemoderun");
    assert_eq!(
        args,
        vec!["-v", "/usr/bin/java", "-Xmx2G", "-cp", "cp", "net.minecraft.server.Main", "nogui", "--port", "25566"]
            .into_iter()
            .map(String::from)
            .collect::<Vec<_>>()
    );
    let (program, args) = launch_command(&None, "java", &Vec::new(), &props, &None, &Vec::new());
    assert_eq!(program, "java");
    assert_eq!(args, vec!["-cp".to_string(), "cp".to_string(), "nogui".to_string()]);
}

#[test]
fn access_token_is_censored() {
    let args = vec!["--accessToken".to_string(), "tok123".to_string(), "xtok123y".to_string()];
    let token = Some("tok123".to_string());
    assert_eq!(
        censor_args(&args, &token, true),
        vec!["--accessToken".to_string(), "***".to_string(), "x***y".to_string()]
    );
    assert_eq!(censor_args(&args, &token, false), args);
    assert_eq!(censor_args(&args, &None, true), args);
    assert_eq!(censor_args(&vec!["ab".to_string()], &Some(String::new()), true), vec!["***a***b***".to_string()]);
}
