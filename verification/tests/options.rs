use mcvm::options::{
    add_data_version_field, merge_options, options_file_contents, write_key, write_resource_packs,
};
use mcvm::client_options::{
    create_keys, write_fullscreen_resolution, ClientOptions, CloudRenderMode, FullscreenResolution, GraphicsMode,
    KeyCode, VersionGates, Volume,
};
use mcvm::strmap::StrMap;

fn map(entries: &[(&str, &str)]) -> StrMap<String> {
    let mut m = StrMap::new();
    for (k, v) in entries {
        m.insert(k.to_string(), v.to_string());
    }
    m
}

#[test]
fn option_lines() {
    assert_eq!(write_key("fov", "0.5"), "fov:0.5\n");
    let options = map(&[("renderDistance", "12"), ("fov", "0.0"), ("lang", "en_us")]);
    assert_eq!(options_file_contents(&options), "fov:0.0\nlang:en_us\nrenderDistance:12\n");
    assert_eq!(options_file_contents(&StrMap::new()), "");
}

#[test]
fn data_version_is_added_once() {
    let mut options = map(&[("fov", "0.0")]);
    add_data_version_field(&mut options, Some(3465));
    assert_eq!(options.get("version"), Some(&"3465".to_string()));
    add_data_version_field(&mut options, Some(100));
    assert_eq!(options.get("version"), Some(&"3465".to_string()));
    let mut none = map(&[]);
    add_data_version_field(&mut none, None);
    assert_eq!(none.len(), 0);
}

#[test]
fn resource_pack_list() {
    assert_eq!(write_resource_packs(&[]), "[]");
    let packs = vec!["vanilla".to_string(), "file/faithful.zip".to_string()];
    assert_eq!(write_resource_packs(&packs), "[\"vanilla\",\"file/faithful.zip\",]");
}

#[test]
fn merged_keys_override_the_file() {
    let mut file = map(&[("fov", "0.0"), ("lang", "en_us")]);
    let keys = map(&[("fov", "1.0"), ("gamma", "0.5")]);
    merge_options(&mut file, &keys);
    assert_eq!(file.get("fov"), Some(&"1.0".to_string()));
    assert_eq!(file.get("lang"), Some(&"en_us".to_string()));
    assert_eq!(file.get("gamma"), Some(&"0.5".to_string()));
    assert_eq!(file.len(), 3);
}

fn gates_1_19_3() -> VersionGates {
    VersionGates {
        after_12w50a: true,
        after_13w36a: true,
        after_13w47a: true,
        after_14w25a: true,
        after_14w28a: true,
        after_17w06a: true,
        after_17w47a: true,
        after_18w15a: true,
        after_18w21a: true,
        after_1_13_pre2: true,
        after_1_15_2_pre1: true,
        after_1_16_4_rc1: true,
        after_21w13a: true,
        after_21w37a: true,
        after_21w38a: true,
        after_21w42a: true,
        after_1_18_pre2: true,
        after_1_18_2_pre1: true,
        after_22w11a: true,
        after_22w15a: true,
        before_13w42a: false,
        before_14w03a: false,
        before_15w31a: false,
        before_1_13: false,
        before_20w27a: false,
        before_21w43a: false,
        before_1_19_4: true,
        is_3d_shareware: false,
    }
}

fn text(s: &str) -> Option<String> {
    Some(s.to_string())
}

#[test]
fn test_create_keys() {
    let options = ClientOptions::default();
    let keys = create_keys(&options, &gates_1_19_3());
    assert_eq!(keys.len(), 0);
}

#[test]
fn created_keys_follow_version_gates() {
    let mut options = ClientOptions::default();
    options.data_version = Some(3218);
    options.control.auto_jump = Some(false);
    options.chat.auto_command_suggestions = Some(true);
    options.video.graphics_mode = Some(GraphicsMode::Fabulous);
    options.video.clouds = Some(CloudRenderMode::Fast);
    options.video.render_distance = Some(12);
    options.video.fov = text("0.5");
    options.snooper_enabled = Some(true);
    options.held_item_tooltips = Some(true);
    options.resource_packs = Some(vec!["vanilla".to_string()]);
    options.control.keys.attack = Some(KeyCode { legacy: "-100".to_string(), modern: "key.mouse.left".to_string() });
    options.control.keys.swap_offhand = Some(KeyCode { legacy: "33".to_string(), modern: "key.keyboard.f".to_string() });
    options.sound.volume.master = Some(Volume { text: "0.5".to_string(), above_zero: true });
    options.sound.volume.hostile = Some(Volume { text: "1.0".to_string(), above_zero: true });
    options.skin.cape = Some(true);
    options.video.fullscreen_resolution =
        Some(FullscreenResolution { width: 1920, height: 1080, refresh_rate: 60, color_bits: 24 });
    options.stream.bitrate = text("0.5");
    options.stream.preferred_server = text("server");

    let keys = create_keys(&options, &gates_1_19_3());
    let get = |k: &str| keys.get(k).cloned();
    assert_eq!(get("version"), text("3218"));
    assert_eq!(get("autoJump"), text("false"));
    assert_eq!(get("autoSuggestions"), text("true"));
    assert_eq!(get("graphicsMode"), text("2"));
    assert_eq!(get("fancyGraphics"), None);
    assert_eq!(get("renderClouds"), text("fast"));
    assert_eq!(get("clouds"), None);
    assert_eq!(get("renderDistance"), text("12"));
    assert_eq!(get("fov"), text("0.5"));
    assert_eq!(get("snooperEnabled"), None);
    assert_eq!(get("heldItemTooltips"), text("true"));
    assert_eq!(get("resourcePacks"), text("[\"vanilla\",]"));
    assert_eq!(get("key_key.attack"), text("key.mouse.left"));
    assert_eq!(get("key_key.swapOffhand"), text("key.keyboard.f"));
    assert_eq!(get("soundCategory_master"), text("0.5"));
    assert_eq!(get("soundCategory_hostile"), text("1.0"));
    assert_eq!(get("sound"), None);
    assert_eq!(get("modelPart_cape"), text("true"));
    assert_eq!(get("fullscreenResolution"), text("1920x1080@60:24"));
    assert_eq!(get("streamKbps"), None);
    assert_eq!(keys.len(), 15);

    let old = VersionGates {
        after_12w50a: true,
        after_13w47a: true,
        before_13w42a: true,
        before_14w03a: true,
        before_15w31a: true,
        before_1_13: true,
        before_20w27a: true,
        before_21w43a: true,
        before_1_19_4: true,
        ..VersionGates::default()
    };
    let keys = create_keys(&options, &old);
    let get = |k: &str| keys.get(k).cloned();
    assert_eq!(get("autoSuggestions"), None);
    assert_eq!(get("fancyGraphics"), text("true"));
    assert_eq!(get("graphicsMode"), None);
    assert_eq!(get("clouds"), text("true"));
    assert_eq!(get("snooperEnabled"), text("true"));
    assert_eq!(get("key_key.attack"), text("-100"));
    assert_eq!(get("key_key.swapHands"), text("33"));
    assert_eq!(get("soundCategory_master"), None);
    assert_eq!(get("sound"), text("true"));
    assert_eq!(get("showCape"), text("true"));
    assert_eq!(get("streamKbps"), text("server"));
}

#[test]
fn custom_keys_override_created_ones() {
    let mut options = ClientOptions::default();
    options.video.render_distance = Some(8);
    options.custom.insert("renderDistance".to_string(), "32".to_string());
    options.custom.insert("extra".to_string(), "x".to_string());
    let keys = create_keys(&options, &gates_1_19_3());
    assert_eq!(keys.get("renderDistance"), Some(&"32".to_string()));
    assert_eq!(keys.get("extra"), Some(&"x".to_string()));
    assert_eq!(keys.len(), 2);
}

#[test]
fn fullscreen_resolution_text() {
    let r = FullscreenResolution { width: 800, height: 600, refresh_rate: 75, color_bits: 32 };
    assert_eq!(write_fullscreen_resolution(&r), "800x600@75:32");
}
