//! The keys of the client's options.txt, written from the options in a format that stays
//! the same across game versions

use vstd::prelude::*;

use crate::options::{merge_options, quoted_names, write_resource_packs};
use crate::order::views;
use crate::strmap::StrMap;
use crate::text::{i64_to_decimal, int_decimal, opt_str_view, owned, string_push, string_push_str};

verus! {

/// A key binding as options.txt writes it: the numeric key code of the versions before
/// 1.13 and the key name of the later ones.
#[derive(Debug)]
pub struct KeyCode {
    pub legacy: String,
    pub modern: String,
}

/// A number that options.txt keeps as a decimal fraction: its text, and whether it is
/// above zero.
#[derive(Debug)]
pub struct Volume {
    pub text: String,
    pub above_zero: bool,
}

/// The graphics mode, by name or by its number.
#[derive(Debug)]
pub enum GraphicsMode {
    Fast,
    Fancy,
    Fabulous,
    Number(i32),
}

/// How clouds are rendered.
#[derive(Debug)]
pub enum CloudRenderMode {
    Fancy,
    Fast,
    Off,
}

/// The resolution and colors of the fullscreen mode.
#[derive(Debug)]
pub struct FullscreenResolution {
    pub width: u32,
    pub height: u32,
    pub refresh_rate: u32,
    pub color_bits: u32,
}

/// Key bindings.
#[derive(Debug, Default)]
pub struct KeyOptions {
    pub attack: Option<KeyCode>,
    pub use_item: Option<KeyCode>,
    pub forward: Option<KeyCode>,
    pub left: Option<KeyCode>,
    pub back: Option<KeyCode>,
    pub right: Option<KeyCode>,
    pub jump: Option<KeyCode>,
    pub sneak: Option<KeyCode>,
    pub sprint: Option<KeyCode>,
    pub drop: Option<KeyCode>,
    pub inventory: Option<KeyCode>,
    pub chat: Option<KeyCode>,
    pub playerlist: Option<KeyCode>,
    pub pick_item: Option<KeyCode>,
    pub command: Option<KeyCode>,
    pub social_interactions: Option<KeyCode>,
    pub screenshot: Option<KeyCode>,
    pub toggle_perspective: Option<KeyCode>,
    pub smooth_camera: Option<KeyCode>,
    pub fullscreen: Option<KeyCode>,
    pub spectator_outlines: Option<KeyCode>,
    pub swap_offhand: Option<KeyCode>,
    pub save_toolbar: Option<KeyCode>,
    pub load_toolbar: Option<KeyCode>,
    pub advancements: Option<KeyCode>,
    pub hotbar_1: Option<KeyCode>,
    pub hotbar_2: Option<KeyCode>,
    pub hotbar_3: Option<KeyCode>,
    pub hotbar_4: Option<KeyCode>,
    pub hotbar_5: Option<KeyCode>,
    pub hotbar_6: Option<KeyCode>,
    pub hotbar_7: Option<KeyCode>,
    pub hotbar_8: Option<KeyCode>,
    pub hotbar_9: Option<KeyCode>,
    pub boss_mode: Option<KeyCode>,
    pub decrease_view: Option<KeyCode>,
    pub increase_view: Option<KeyCode>,
    pub stream_commercial: Option<KeyCode>,
    pub stream_pause_unpause: Option<KeyCode>,
    pub stream_start_stop: Option<KeyCode>,
    pub stream_toggle_microphone: Option<KeyCode>,
}

/// Control options; the mouse sensitivities are held as the text of their fractions.
#[derive(Debug, Default)]
pub struct ControlOptions {
    pub keys: KeyOptions,
    pub auto_jump: Option<bool>,
    pub discrete_mouse_scroll: Option<bool>,
    pub invert_mouse_y: Option<bool>,
    pub enable_touchscreen: Option<bool>,
    pub toggle_crouch: Option<bool>,
    pub toggle_sprint: Option<bool>,
    pub mouse_sensitivity: Option<String>,
    pub mouse_wheel_sensitivity: Option<String>,
    pub raw_mouse_input: Option<bool>,
}

/// Video options; the scales, the field of view and the brightness are held as the text
/// of their fractions, the enumerated settings as their numbers.
#[derive(Debug, Default)]
pub struct VideoOptions {
    pub vsync: Option<bool>,
    pub entity_shadows: Option<bool>,
    pub fullscreen: Option<bool>,
    pub view_bobbing: Option<bool>,
    pub dark_mojang_background: Option<bool>,
    pub hide_lightning_flashes: Option<bool>,
    pub fov: Option<String>,
    pub screen_effect_scale: Option<String>,
    pub fov_effect_scale: Option<String>,
    pub darkness_effect_scale: Option<String>,
    pub brightness: Option<String>,
    pub render_distance: Option<i64>,
    pub simulation_distance: Option<i64>,
    pub entity_distance_scaling: Option<String>,
    pub gui_scale: Option<i64>,
    pub graphics_mode: Option<GraphicsMode>,
    pub smooth_lighting: Option<bool>,
    pub biome_blend: Option<i64>,
    pub chunk_updates_mode: Option<i64>,
    pub particles: Option<i64>,
    pub max_fps: Option<i64>,
    pub clouds: Option<CloudRenderMode>,
    pub window_width: Option<i64>,
    pub window_height: Option<i64>,
    pub mipmap_levels: Option<i64>,
    pub allow_block_alternatives: Option<bool>,
    pub fullscreen_resolution: Option<FullscreenResolution>,
}

/// Chat options; the sizes, opacities and the delay are held as the text of their
/// fractions, the enumerated settings as their numbers.
#[derive(Debug, Default)]
pub struct ChatOptions {
    pub auto_command_suggestions: Option<bool>,
    pub enable_colors: Option<bool>,
    pub enable_links: Option<bool>,
    pub prompt_links: Option<bool>,
    pub force_unicode: Option<bool>,
    pub visibility: Option<i64>,
    pub opacity: Option<String>,
    pub line_spacing: Option<String>,
    pub background_opacity: Option<String>,
    pub background_for_chat_only: Option<bool>,
    pub focused_height: Option<String>,
    pub unfocused_height: Option<String>,
    pub delay: Option<String>,
    pub scale: Option<String>,
    pub width: Option<String>,
    pub narrator_mode: Option<i64>,
}

/// The volumes of the sound categories.
#[derive(Debug, Default)]
pub struct VolumeOptions {
    pub master: Option<Volume>,
    pub music: Option<Volume>,
    pub record: Option<Volume>,
    pub weather: Option<Volume>,
    pub block: Option<Volume>,
    pub hostile: Option<Volume>,
    pub neutral: Option<Volume>,
    pub player: Option<Volume>,
    pub ambient: Option<Volume>,
    pub voice: Option<Volume>,
}

/// Sound options.
#[derive(Debug, Default)]
pub struct SoundOptions {
    pub volume: VolumeOptions,
    pub show_subtitles: Option<bool>,
    pub directional_audio: Option<bool>,
    pub device: Option<String>,
}

/// The parts of the skin that are shown.
#[derive(Debug, Default)]
pub struct SkinOptions {
    pub cape: Option<bool>,
    pub jacket: Option<bool>,
    pub left_sleeve: Option<bool>,
    pub right_sleeve: Option<bool>,
    pub left_pants: Option<bool>,
    pub right_pants: Option<bool>,
    pub hat: Option<bool>,
}

/// Streaming options of the versions that had streaming; the rates and volumes are held
/// as the text of their fractions.
#[derive(Debug, Default)]
pub struct StreamOptions {
    pub bytes_per_pixel: Option<String>,
    pub chat_enabled: Option<i32>,
    pub chat_filter: Option<i32>,
    pub compression: Option<i32>,
    pub fps: Option<String>,
    pub bitrate: Option<String>,
    pub microphone_toggle_behavior: Option<i32>,
    pub microphone_volume: Option<String>,
    pub preferred_server: Option<String>,
    pub send_metadata: Option<bool>,
    pub system_volume: Option<String>,
}

/// The client options; each is written only where it is set.
#[derive(Debug, Default)]
pub struct ClientOptions {
    pub data_version: Option<i32>,
    pub video: VideoOptions,
    pub control: ControlOptions,
    pub chat: ChatOptions,
    pub sound: SoundOptions,
    pub skin: SkinOptions,
    pub stream: StreamOptions,
    pub resource_packs: Option<Vec<String>>,
    pub language: Option<String>,
    pub tutorial_step: Option<String>,
    pub skip_multiplayer_warning: Option<bool>,
    pub skip_realms_32_bit_warning: Option<bool>,
    pub joined_server: Option<bool>,
    pub hide_bundle_tutorial: Option<bool>,
    pub hide_server_address: Option<bool>,
    pub advanced_item_tooltips: Option<bool>,
    pub pause_on_lost_focus: Option<bool>,
    pub held_item_tooltips: Option<bool>,
    pub use_native_transport: Option<bool>,
    pub main_hand: Option<String>,
    pub difficulty: Option<i64>,
    pub log_level: Option<i64>,
    pub hide_matched_names: Option<bool>,
    pub sync_chunk_writes: Option<bool>,
    pub show_autosave_indicator: Option<bool>,
    pub allow_server_listing: Option<bool>,
    pub snooper_enabled: Option<bool>,
    pub realms_notifications: Option<bool>,
    pub reduced_debug_info: Option<bool>,
    pub custom: StrMap<String>,
}

/// Where the game version stands against the versions at which options.txt changed:
/// after (or at) a version, before it, or the one 3D Shareware version.
#[derive(Debug, Clone, Copy, Default)]
pub struct VersionGates {
    pub after_12w50a: bool,
    pub after_13w36a: bool,
    pub after_13w47a: bool,
    pub after_14w25a: bool,
    pub after_14w28a: bool,
    pub after_17w06a: bool,
    pub after_17w47a: bool,
    pub after_18w15a: bool,
    pub after_18w21a: bool,
    pub after_1_13_pre2: bool,
    pub after_1_15_2_pre1: bool,
    pub after_1_16_4_rc1: bool,
    pub after_21w13a: bool,
    pub after_21w37a: bool,
    pub after_21w38a: bool,
    pub after_21w42a: bool,
    pub after_1_18_pre2: bool,
    pub after_1_18_2_pre1: bool,
    pub after_22w11a: bool,
    pub after_22w15a: bool,
    pub before_13w42a: bool,
    pub before_14w03a: bool,
    pub before_15w31a: bool,
    pub before_1_13: bool,
    pub before_20w27a: bool,
    pub before_21w43a: bool,
    pub before_1_19_4: bool,
    pub is_3d_shareware: bool,
}

/// A key of options.txt with the value written for it, if one is.
pub type KeyEntry = (Seq<char>, Option<Seq<char>>);

/// The text of a boolean.
pub open spec fn bool_text(b: bool) -> Seq<char> {
    if b {
        seq!['t', 'r', 'u', 'e']
    } else {
        seq!['f', 'a', 'l', 's', 'e']
    }
}

/// The text of a set boolean option.
pub open spec fn sbool(v: Option<bool>) -> Option<Seq<char>> {
    match v {
        Some(b) => Some(bool_text(b)),
        None => None,
    }
}

/// The decimal text of a set number option.
pub open spec fn sint(v: Option<i64>) -> Option<Seq<char>> {
    match v {
        Some(n) => Some(int_decimal(n as int)),
        None => None,
    }
}

/// The decimal text of a set 32-bit number option.
pub open spec fn sint32(v: Option<i32>) -> Option<Seq<char>> {
    match v {
        Some(n) => Some(int_decimal(n as int)),
        None => None,
    }
}

/// A value that is written only where the condition holds.
pub open spec fn only_if(g: bool, v: Option<Seq<char>>) -> Option<Seq<char>> {
    if g {
        v
    } else {
        None
    }
}

/// The text of a set volume.
pub open spec fn svolume(v: Option<Volume>) -> Option<Seq<char>> {
    match v {
        Some(x) => Some(x.text@),
        None => None,
    }
}

/// The code of a set key binding: the legacy one before 1.13.
pub open spec fn skey(k: Option<KeyCode>, before_1_13: bool) -> Option<Seq<char>> {
    match k {
        Some(c) => Some(if before_1_13 { c.legacy@ } else { c.modern@ }),
        None => None,
    }
}

/// The number of a graphics mode.
pub open spec fn graphics_number(m: GraphicsMode) -> int {
    match m {
        GraphicsMode::Fast => 0,
        GraphicsMode::Fancy => 1,
        GraphicsMode::Fabulous => 2,
        GraphicsMode::Number(n) => n as int,
    }
}

/// Whether a graphics mode counts as fancy graphics.
pub open spec fn graphics_fancy(m: GraphicsMode) -> bool {
    match m {
        GraphicsMode::Fast => false,
        GraphicsMode::Fancy | GraphicsMode::Fabulous => true,
        GraphicsMode::Number(n) => n > 0,
    }
}

/// The text of a cloud render mode.
pub open spec fn cloud_text(m: CloudRenderMode) -> Seq<char> {
    match m {
        CloudRenderMode::Fancy => seq!['t', 'r', 'u', 'e'],
        CloudRenderMode::Fast => seq!['f', 'a', 's', 't'],
        CloudRenderMode::Off => seq!['f', 'a', 'l', 's', 'e'],
    }
}

/// The text of a fullscreen resolution: width `x` height `@` refresh rate `:` color bits.
pub open spec fn resolution_text(r: FullscreenResolution) -> Seq<char> {
    int_decimal(r.width as int) + seq!['x'] + int_decimal(r.height as int) + seq!['@'] + int_decimal(
        r.refresh_rate as int,
    ) + seq![':'] + int_decimal(r.color_bits as int)
}

/// Whether the streaming options of the game exist.
pub open spec fn streaming(g: VersionGates) -> bool {
    g.after_13w47a && g.before_15w31a
}

/// The general keys, in the order they are written.
pub open spec fn general_entries(o: ClientOptions, g: VersionGates) -> Seq<KeyEntry> {
    seq![
        ("version"@, sint32(o.data_version)),
        ("autoJump"@, sbool(o.control.auto_jump)),
        ("fullscreen"@, sbool(o.video.fullscreen)),
        ("autoSuggestions"@, only_if(g.after_17w47a, sbool(o.chat.auto_command_suggestions))),
        ("chatColors"@, sbool(o.chat.enable_colors)),
        ("chatLinks"@, sbool(o.chat.enable_links)),
        ("chatLinksPrompt"@, sbool(o.chat.prompt_links)),
        ("enableVsync"@, sbool(o.video.vsync)),
        ("entityShadows"@, sbool(o.video.entity_shadows)),
        ("forceUnicodeFont"@, sbool(o.chat.force_unicode)),
        ("discrete_mouse_scroll"@, sbool(o.control.discrete_mouse_scroll)),
        ("invertYMouse"@, sbool(o.control.invert_mouse_y)),
        ("realmsNotifications"@, sbool(o.realms_notifications)),
        ("reducedDebugInfo"@, sbool(o.reduced_debug_info)),
        ("showSubtitles"@, sbool(o.sound.show_subtitles)),
        ("directionalAudio"@, only_if(g.after_22w11a, sbool(o.sound.directional_audio))),
        ("touchscreen"@, sbool(o.control.enable_touchscreen)),
        ("bobView"@, sbool(o.video.view_bobbing)),
        ("toggleCrouch"@, sbool(o.control.toggle_crouch)),
        ("toggleSprint"@, sbool(o.control.toggle_sprint)),
        ("darkMojangStudiosBackground"@, only_if(g.after_21w13a, sbool(o.video.dark_mojang_background))),
        ("hideLightningFlashes"@, only_if(g.after_21w37a, sbool(o.video.hide_lightning_flashes))),
        ("prioritizeChunkUpdates"@, only_if(g.after_21w37a, sint(o.video.chunk_updates_mode))),
        ("soundDevice"@, only_if(g.after_21w37a, opt_str_view(o.sound.device))),
        ("mouseSensitivity"@, opt_str_view(o.control.mouse_sensitivity)),
        ("fov"@, opt_str_view(o.video.fov)),
        ("screenEffectScale"@, opt_str_view(o.video.screen_effect_scale)),
        ("fovEffectScale"@, opt_str_view(o.video.fov_effect_scale)),
        ("darknessEffectScale"@, only_if(g.after_22w15a, opt_str_view(o.video.darkness_effect_scale))),
        ("gamma"@, opt_str_view(o.video.brightness)),
        ("renderDistance"@, sint(o.video.render_distance)),
        ("simulationDistance"@, only_if(g.after_21w38a, sint(o.video.simulation_distance))),
        ("entityDistanceScaling"@, opt_str_view(o.video.entity_distance_scaling)),
        ("guiScale"@, sint(o.video.gui_scale)),
        ("particles"@, sint(o.video.particles)),
        ("maxFps"@, sint(o.video.max_fps)),
        ("difficulty"@, sint(o.difficulty)),
    ]
}

/// The display keys, in the order they are written.
pub open spec fn display_entries(o: ClientOptions, g: VersionGates) -> Seq<KeyEntry> {
    seq![
        ("fancyGraphics"@, only_if(g.before_20w27a, match o.video.graphics_mode {
            Some(m) => Some(bool_text(graphics_fancy(m))),
            None => None,
        })),
        ("graphicsMode"@, only_if(!g.before_20w27a, match o.video.graphics_mode {
            Some(m) => Some(int_decimal(graphics_number(m))),
            None => None,
        })),
        ("ao"@, sbool(o.video.smooth_lighting)),
        ("biomeBlendRadius"@, only_if(g.after_18w15a, sint(o.video.biome_blend))),
        ("renderClouds"@, only_if(g.after_14w25a, match o.video.clouds {
            Some(m) => Some(cloud_text(m)),
            None => None,
        })),
        ("clouds"@, only_if(!g.after_14w25a, match o.video.clouds {
            Some(m) => Some(bool_text(!(m is Off))),
            None => None,
        })),
        ("resourcePacks"@, match o.resource_packs {
            Some(p) => Some(seq!['['] + quoted_names(views(p@)) + seq![']']),
            None => None,
        }),
        ("lang"@, opt_str_view(o.language)),
        ("chatVisibility"@, sint(o.chat.visibility)),
        ("chatOpacity"@, opt_str_view(o.chat.opacity)),
        ("chatLineSpacing"@, opt_str_view(o.chat.line_spacing)),
        ("textBackgroundOpacity"@, opt_str_view(o.chat.background_opacity)),
        ("backgroundForChatOnly"@, sbool(o.chat.background_for_chat_only)),
        ("hideServerAddress"@, sbool(o.hide_server_address)),
        ("advancedItemTooltips"@, sbool(o.advanced_item_tooltips)),
        ("pauseOnLostFocus"@, sbool(o.pause_on_lost_focus)),
        ("overrideWidth"@, sint(o.video.window_width)),
        ("overrideHeight"@, sint(o.video.window_height)),
        ("heldItemTooltips"@, only_if(g.after_12w50a && g.before_1_19_4, sbool(o.held_item_tooltips))),
    ]
}

/// The chat, control and notice keys, in the order they are written.
pub open spec fn notice_entries(o: ClientOptions, g: VersionGates) -> Seq<KeyEntry> {
    seq![
        ("chatHeightFocused"@, opt_str_view(o.chat.focused_height)),
        ("chatDelay"@, opt_str_view(o.chat.delay)),
        ("chatHeightUnfocused"@, opt_str_view(o.chat.unfocused_height)),
        ("chatScale"@, opt_str_view(o.chat.scale)),
        ("chatWidth"@, opt_str_view(o.chat.width)),
        ("mipmapLevels"@, sint(o.video.mipmap_levels)),
        ("useNativeTransport"@, sbool(o.use_native_transport)),
        ("mainHand"@, opt_str_view(o.main_hand)),
        ("narrator"@, only_if(g.after_17w06a, sint(o.chat.narrator_mode))),
        ("tutorialStep"@, only_if(g.after_17w06a, opt_str_view(o.tutorial_step))),
        ("mouseWheelSensitivity"@, only_if(g.after_18w21a, opt_str_view(o.control.mouse_wheel_sensitivity))),
        ("rawMouseInput"@, sbool(o.control.raw_mouse_input)),
        ("glDebugVerbosity"@, only_if(g.after_1_13_pre2, sint(o.log_level))),
        ("skipMultiplayerWarning"@, only_if(g.after_1_15_2_pre1, sbool(o.skip_multiplayer_warning))),
        ("skipRealms32bitWarning"@, only_if(g.after_1_18_2_pre1, sbool(o.skip_realms_32_bit_warning))),
        ("hideMatchedNames"@, only_if(g.after_1_16_4_rc1, sbool(o.hide_matched_names))),
        ("joinedFirstServer"@, only_if(g.after_1_16_4_rc1, sbool(o.joined_server))),
        ("hideBundleTutorial"@, sbool(o.hide_bundle_tutorial)),
        ("syncChunkWrites"@, sbool(o.sync_chunk_writes)),
        ("showAutosaveIndicator"@, only_if(g.after_21w42a, sbool(o.show_autosave_indicator))),
        ("allowServerListing"@, only_if(g.after_1_18_pre2, sbool(o.allow_server_listing))),
        ("snooperEnabled"@, only_if(g.before_21w43a, sbool(o.snooper_enabled))),
    ]
}

/// The streaming keys, in the order they are written; the preferred server is written
/// under the bit rate's key.
pub open spec fn stream_entries(o: ClientOptions, g: VersionGates) -> Seq<KeyEntry> {
    let s = streaming(g);
    seq![
        ("streamBytesPerPixel"@, only_if(s, opt_str_view(o.stream.bytes_per_pixel))),
        ("streamChatEnabled"@, only_if(s, sint32(o.stream.chat_enabled))),
        ("streamChatUserFilter"@, only_if(s, sint32(o.stream.chat_filter))),
        ("streamCompression"@, only_if(s, sint32(o.stream.compression))),
        ("streamFps"@, only_if(s, opt_str_view(o.stream.fps))),
        ("streamKbps"@, only_if(s, opt_str_view(o.stream.bitrate))),
        ("streamMicToggleBehavior"@, only_if(s, sint32(o.stream.microphone_toggle_behavior))),
        ("streamMicVolume"@, only_if(s, opt_str_view(o.stream.microphone_volume))),
        ("streamKbps"@, only_if(s, opt_str_view(o.stream.preferred_server))),
        ("streamSendMetadata"@, only_if(s, sbool(o.stream.send_metadata))),
        ("streamSystemVolume"@, only_if(s, opt_str_view(o.stream.system_volume))),
    ]
}

/// The key binding keys, in the order they are written.
pub open spec fn key_entries(o: ClientOptions, g: VersionGates) -> Seq<KeyEntry> {
    let k = o.control.keys;
    let b = g.before_1_13;
    let s = streaming(g);
    seq![
        ("key_key.attack"@, skey(k.attack, b)),
        ("key_key.use"@, skey(k.use_item, b)),
        ("key_key.forward"@, skey(k.forward, b)),
        ("key_key.left"@, skey(k.left, b)),
        ("key_key.back"@, skey(k.back, b)),
        ("key_key.right"@, skey(k.right, b)),
        ("key_key.jump"@, skey(k.jump, b)),
        ("key_key.sneak"@, skey(k.sneak, b)),
        ("key_key.sprint"@, skey(k.sprint, b)),
        ("key_key.drop"@, skey(k.drop, b)),
        ("key_key.inventory"@, skey(k.inventory, b)),
        ("key_key.chat"@, skey(k.chat, b)),
        ("key_key.playerlist"@, skey(k.playerlist, b)),
        ("key_key.pickItem"@, skey(k.pick_item, b)),
        ("key_key.command"@, skey(k.command, b)),
        ("key_key.socialInteractions"@, skey(k.social_interactions, b)),
        ("key_key.screenshot"@, skey(k.screenshot, b)),
        ("key_key.togglePerspective"@, skey(k.toggle_perspective, b)),
        ("key_key.smoothCamera"@, skey(k.smooth_camera, b)),
        ("key_key.fullscreen"@, skey(k.fullscreen, b)),
        ("key_key.spectatorOutlines"@, skey(k.spectator_outlines, b)),
        (if g.before_20w27a { "key_key.swapHands"@ } else { "key_key.swapOffhand"@ }, skey(k.swap_offhand, b)),
        ("key_key.saveToolbarActivator"@, only_if(g.after_17w06a, skey(k.save_toolbar, b))),
        ("key_key.loadToolbarActivator"@, only_if(g.after_17w06a, skey(k.load_toolbar, b))),
        ("key_key.advancements"@, only_if(g.after_17w06a, skey(k.advancements, b))),
        ("key_key.hotbar.1"@, skey(k.hotbar_1, b)),
        ("key_key.hotbar.2"@, skey(k.hotbar_2, b)),
        ("key_key.hotbar.3"@, skey(k.hotbar_3, b)),
        ("key_key.hotbar.4"@, skey(k.hotbar_4, b)),
        ("key_key.hotbar.5"@, skey(k.hotbar_5, b)),
        ("key_key.hotbar.6"@, skey(k.hotbar_6, b)),
        ("key_key.hotbar.7"@, skey(k.hotbar_7, b)),
        ("key_key.hotbar.8"@, skey(k.hotbar_8, b)),
        ("key_key.hotbar.9"@, skey(k.hotbar_9, b)),
        ("key_key.boss_mode"@, only_if(g.is_3d_shareware, skey(k.boss_mode, b))),
        ("key_key.decrease_view"@, only_if(g.is_3d_shareware, skey(k.decrease_view, b))),
        ("key_key.increase_view"@, only_if(g.is_3d_shareware, skey(k.increase_view, b))),
        ("key_key.streamCommercial"@, only_if(s, skey(k.stream_commercial, b))),
        ("key_key.streamPauseUnpause"@, only_if(s, skey(k.stream_pause_unpause, b))),
        ("key_key.streamStartStop"@, only_if(s, skey(k.stream_start_stop, b))),
        ("key_key.streamToggleMic"@, only_if(s, skey(k.stream_toggle_microphone, b))),
    ]
}

/// The volume, skin and resolution keys, in the order they are written. Since 13w36a each
/// sound category has its volume, under names that changed in 13w42a; before, only
/// whether the master volume is above zero is written.
pub open spec fn sound_entries(o: ClientOptions, g: VersionGates) -> Seq<KeyEntry> {
    let v = o.sound.volume;
    let cats = g.after_13w36a;
    let old_names = g.before_13w42a;
    seq![
        ("soundCategory_master"@, only_if(cats, svolume(v.master))),
        ("soundCategory_music"@, only_if(cats, svolume(v.music))),
        (if old_names { "soundCategory_records"@ } else { "soundCategory_record"@ }, only_if(cats, svolume(v.record))),
        ("soundCategory_weather"@, only_if(cats, svolume(v.weather))),
        (if old_names { "soundCategory_blocks"@ } else { "soundCategory_block"@ }, only_if(cats, svolume(v.block))),
        (if old_names { "soundCategory_mobs"@ } else { "soundCategory_hostile"@ }, only_if(cats, svolume(v.hostile))),
        (if old_names { "soundCategory_animals"@ } else { "soundCategory_neutral"@ }, only_if(cats, svolume(v.neutral))),
        (if old_names { "soundCategory_players"@ } else { "soundCategory_player"@ }, only_if(cats, svolume(v.player))),
        ("soundCategory_ambient"@, only_if(cats, svolume(v.ambient))),
        ("soundCategory_voice"@, only_if(cats, svolume(v.voice))),
        ("sound"@, only_if(!cats, match v.master {
            Some(m) => Some(bool_text(m.above_zero)),
            None => None,
        })),
        (if g.before_14w03a { "showCape"@ } else { "modelPart_cape"@ }, sbool(o.skin.cape)),
        ("modelPart_jacket"@, sbool(o.skin.jacket)),
        ("modelPart_left_sleeve"@, sbool(o.skin.left_sleeve)),
        ("modelPart_right_sleeve"@, sbool(o.skin.right_sleeve)),
        ("modelPart_left_pants_leg"@, sbool(o.skin.left_pants)),
        ("modelPart_right_pants_leg"@, sbool(o.skin.right_pants)),
        ("modelPart_hat"@, sbool(o.skin.hat)),
        ("allowBlockAlternatives"@, only_if(g.after_14w28a && g.before_15w31a, sbool(o.video.allow_block_alternatives))),
        ("fullscreenResolution"@, match o.video.fullscreen_resolution {
            Some(r) => Some(resolution_text(r)),
            None => None,
        }),
    ]
}

/// The map after writing the entries in order onto `m`: each entry with a value sets its
/// key, a later one overriding an earlier one.
pub open spec fn apply_entries(m: Map<Seq<char>, Seq<char>>, es: Seq<KeyEntry>) -> Map<Seq<char>, Seq<char>>
    decreases es.len(),
{
    if es.len() == 0 {
        m
    } else {
        let before = apply_entries(m, es.drop_last());
        match es.last().1 {
            Some(v) => before.insert(es.last().0, v),
            None => before,
        }
    }
}

/// The texts of a map of strings.
pub open spec fn texts(m: Map<Seq<char>, String>) -> Map<Seq<char>, Seq<char>> {
    m.map_values(|s: String| s@)
}

/// The keys of options.txt for the options and the game version: every option that is
/// set and whose version condition holds, written in order, and then the custom keys, which
/// override the others.
pub open spec fn spec_create_keys(o: ClientOptions, g: VersionGates) -> Map<Seq<char>, Seq<char>> {
    let m1 = apply_entries(Map::empty(), general_entries(o, g));
    let m2 = apply_entries(m1, display_entries(o, g));
    let m2b = apply_entries(m2, notice_entries(o, g));
    let m3 = apply_entries(m2b, stream_entries(o, g));
    let m4 = apply_entries(m3, key_entries(o, g));
    let m5 = apply_entries(m4, sound_entries(o, g));
    m5.union_prefer_right(texts(o.custom.map()))
}

/// Custom keys are written with their own values, over any key written for an option.
pub proof fn law_custom_keys_override(o: ClientOptions, g: VersionGates, k: Seq<char>)
    requires
        o.custom.map().contains_key(k),
    ensures
        spec_create_keys(o, g).contains_key(k),
        spec_create_keys(o, g)[k] == o.custom.map()[k]@,
{
}

/// An entry's value is what the map ends with for its key when no later entry sets that key.
pub proof fn law_last_entry_wins(m: Map<Seq<char>, Seq<char>>, es: Seq<KeyEntry>, i: int)
    requires
        0 <= i < es.len(),
        es[i].1 is Some,
        forall|j: int| i < j < es.len() ==> (#[trigger] es[j]).0 != es[i].0 || es[j].1 is None,
    ensures
        apply_entries(m, es).contains_key(es[i].0),
        apply_entries(m, es)[es[i].0] == es[i].1->0,
    decreases es.len(),
{
    if i < es.len() - 1 {
        law_last_entry_wins(m, es.drop_last(), i);
        assert(es.drop_last()[i] == es[i]);
        assert forall|j: int| i < j < es.drop_last().len() implies (#[trigger] es.drop_last()[j]).0 != es[i].0
            || es.drop_last()[j].1 is None by {
            assert(es.drop_last()[j] == es[j]);
        }
    }
}

/// A key that no entry writes a value for keeps what the map had for it.
pub proof fn law_unwritten_key_kept(m: Map<Seq<char>, Seq<char>>, es: Seq<KeyEntry>, k: Seq<char>)
    requires
        forall|j: int| 0 <= j < es.len() ==> (#[trigger] es[j]).0 != k || es[j].1 is None,
    ensures
        apply_entries(m, es).contains_key(k) == m.contains_key(k),
        m.contains_key(k) ==> apply_entries(m, es)[k] == m[k],
    decreases es.len(),
{
    if es.len() > 0 {
        assert forall|j: int| 0 <= j < es.drop_last().len() implies (#[trigger] es.drop_last()[j]).0 != k
            || es.drop_last()[j].1 is None by {
            assert(es.drop_last()[j] == es[j]);
        }
        law_unwritten_key_kept(m, es.drop_last(), k);
        assert(es[es.len() - 1] == es.last());
    }
}

proof fn lemma_display_lack_fancy_graphics(o: ClientOptions, g: VersionGates)
    ensures
        forall|j: int| 1 <= j < display_entries(o, g).len() ==> (#[trigger] display_entries(o, g)[j]).0 != "fancyGraphics"@,
{
    reveal_strlit("advancedItemTooltips");
    reveal_strlit("ao");
    reveal_strlit("backgroundForChatOnly");
    reveal_strlit("biomeBlendRadius");
    reveal_strlit("chatLineSpacing");
    reveal_strlit("chatOpacity");
    reveal_strlit("chatVisibility");
    reveal_strlit("clouds");
    reveal_strlit("fancyGraphics");
    reveal_strlit("graphicsMode");
    reveal_strlit("heldItemTooltips");
    reveal_strlit("hideServerAddress");
    reveal_strlit("lang");
    reveal_strlit("overrideHeight");
    reveal_strlit("overrideWidth");
    reveal_strlit("pauseOnLostFocus");
    reveal_strlit("renderClouds");
    reveal_strlit("resourcePacks");
    reveal_strlit("textBackgroundOpacity");
    let es = display_entries(o, g);
    assert("fancyGraphics"@.len() == 13);
    assert(es.len() == 19);
    assert forall|j: int| 1 <= j < es.len() implies (#[trigger] es[j]).0 != "fancyGraphics"@ by {
        if j == 1 {
            assert("graphicsMode"@.len() == 12);
            assert(es[1].0 == "graphicsMode"@);
            assert(es[1].0 != "fancyGraphics"@);
        } else if j == 2 {
            assert("ao"@.len() == 2);
            assert(es[2].0 == "ao"@);
            assert(es[2].0 != "fancyGraphics"@);
        } else if j == 3 {
            assert("biomeBlendRadius"@.len() == 16);
            assert(es[3].0 == "biomeBlendRadius"@);
            assert(es[3].0 != "fancyGraphics"@);
        } else if j == 4 {
            assert("renderClouds"@.len() == 12);
            assert(es[4].0 == "renderClouds"@);
            assert(es[4].0 != "fancyGraphics"@);
        } else if j == 5 {
            assert("clouds"@.len() == 6);
            assert(es[5].0 == "clouds"@);
            assert(es[5].0 != "fancyGraphics"@);
        } else if j == 6 {
            assert("resourcePacks"@[0] == 'r' && "fancyGraphics"@[0] == 'f');
            assert(es[6].0 == "resourcePacks"@);
            assert(es[6].0 != "fancyGraphics"@);
        } else if j == 7 {
            assert("lang"@.len() == 4);
            assert(es[7].0 == "lang"@);
            assert(es[7].0 != "fancyGraphics"@);
        } else if j == 8 {
            assert("chatVisibility"@.len() == 14);
            assert(es[8].0 == "chatVisibility"@);
            assert(es[8].0 != "fancyGraphics"@);
        } else if j == 9 {
            assert("chatOpacity"@.len() == 11);
            assert(es[9].0 == "chatOpacity"@);
            assert(es[9].0 != "fancyGraphics"@);
        } else if j == 10 {
            assert("chatLineSpacing"@.len() == 15);
            assert(es[10].0 == "chatLineSpacing"@);
            assert(es[10].0 != "fancyGraphics"@);
        } else if j == 11 {
            assert("textBackgroundOpacity"@.len() == 21);
            assert(es[11].0 == "textBackgroundOpacity"@);
            assert(es[11].0 != "fancyGraphics"@);
        } else if j == 12 {
            assert("backgroundForChatOnly"@.len() == 21);
            assert(es[12].0 == "backgroundForChatOnly"@);
            assert(es[12].0 != "fancyGraphics"@);
        } else if j == 13 {
            assert("hideServerAddress"@.len() == 17);
            assert(es[13].0 == "hideServerAddress"@);
            assert(es[13].0 != "fancyGraphics"@);
        } else if j == 14 {
            assert("advancedItemTooltips"@.len() == 20);
            assert(es[14].0 == "advancedItemTooltips"@);
            assert(es[14].0 != "fancyGraphics"@);
        } else if j == 15 {
            assert("pauseOnLostFocus"@.len() == 16);
            assert(es[15].0 == "pauseOnLostFocus"@);
            assert(es[15].0 != "fancyGraphics"@);
        } else if j == 16 {
            assert("overrideWidth"@[0] == 'o' && "fancyGraphics"@[0] == 'f');
            assert(es[16].0 == "overrideWidth"@);
            assert(es[16].0 != "fancyGraphics"@);
        } else if j == 17 {
            assert("overrideHeight"@.len() == 14);
            assert(es[17].0 == "overrideHeight"@);
            assert(es[17].0 != "fancyGraphics"@);
        } else if j == 18 {
            assert("heldItemTooltips"@.len() == 16);
            assert(es[18].0 == "heldItemTooltips"@);
            assert(es[18].0 != "fancyGraphics"@);
        }
    }
}

proof fn lemma_notice_lack_fancy_graphics(o: ClientOptions, g: VersionGates)
    ensures
        forall|j: int| 0 <= j < notice_entries(o, g).len() ==> (#[trigger] notice_entries(o, g)[j]).0 != "fancyGraphics"@,
{
    reveal_strlit("allowServerListing");
    reveal_strlit("chatDelay");
    reveal_strlit("chatHeightFocused");
    reveal_strlit("chatHeightUnfocused");
    reveal_strlit("chatScale");
    reveal_strlit("chatWidth");
    reveal_strlit("fancyGraphics");
    reveal_strlit("glDebugVerbosity");
    reveal_strlit("hideBundleTutorial");
    reveal_strlit("hideMatchedNames");
    reveal_strlit("joinedFirstServer");
    reveal_strlit("mainHand");
    reveal_strlit("mipmapLevels");
    reveal_strlit("mouseWheelSensitivity");
    reveal_strlit("narrator");
    reveal_strlit("rawMouseInput");
    reveal_strlit("showAutosaveIndicator");
    reveal_strlit("skipMultiplayerWarning");
    reveal_strlit("skipRealms32bitWarning");
    reveal_strlit("snooperEnabled");
    reveal_strlit("syncChunkWrites");
    reveal_strlit("tutorialStep");
    reveal_strlit("useNativeTransport");
    let es = notice_entries(o, g);
    assert("fancyGraphics"@.len() == 13);
    assert(es.len() == 22);
    assert forall|j: int| 0 <= j < es.len() implies (#[trigger] es[j]).0 != "fancyGraphics"@ by {
        if j == 0 {
            assert("chatHeightFocused"@.len() == 17);
            assert(es[0].0 == "chatHeightFocused"@);
            assert(es[0].0 != "fancyGraphics"@);
        } else if j == 1 {
            assert("chatDelay"@.len() == 9);
            assert(es[1].0 == "chatDelay"@);
            assert(es[1].0 != "fancyGraphics"@);
        } else if j == 2 {
            assert("chatHeightUnfocused"@.len() == 19);
            assert(es[2].0 == "chatHeightUnfocused"@);
            assert(es[2].0 != "fancyGraphics"@);
        } else if j == 3 {
            assert("chatScale"@.len() == 9);
            assert(es[3].0 == "chatScale"@);
            assert(es[3].0 != "fancyGraphics"@);
        } else if j == 4 {
            assert("chatWidth"@.len() == 9);
            assert(es[4].0 == "chatWidth"@);
            assert(es[4].0 != "fancyGraphics"@);
        } else if j == 5 {
            assert("mipmapLevels"@.len() == 12);
            assert(es[5].0 == "mipmapLevels"@);
            assert(es[5].0 != "fancyGraphics"@);
        } else if j == 6 {
            assert("useNativeTransport"@.len() == 18);
            assert(es[6].0 == "useNativeTransport"@);
            assert(es[6].0 != "fancyGraphics"@);
        } else if j == 7 {
            assert("mainHand"@.len() == 8);
            assert(es[7].0 == "mainHand"@);
            assert(es[7].0 != "fancyGraphics"@);
        } else if j == 8 {
            assert("narrator"@.len() == 8);
            assert(es[8].0 == "narrator"@);
            assert(es[8].0 != "fancyGraphics"@);
        } else if j == 9 {
            assert("tutorialStep"@.len() == 12);
            assert(es[9].0 == "tutorialStep"@);
            assert(es[9].0 != "fancyGraphics"@);
        } else if j == 10 {
            assert("mouseWheelSensitivity"@.len() == 21);
            assert(es[10].0 == "mouseWheelSensitivity"@);
            assert(es[10].0 != "fancyGraphics"@);
        } else if j == 11 {
            assert("rawMouseInput"@[0] == 'r' && "fancyGraphics"@[0] == 'f');
            assert(es[11].0 == "rawMouseInput"@);
            assert(es[11].0 != "fancyGraphics"@);
        } else if j == 12 {
            assert("glDebugVerbosity"@.len() == 16);
            assert(es[12].0 == "glDebugVerbosity"@);
            assert(es[12].0 != "fancyGraphics"@);
        } else if j == 13 {
            assert("skipMultiplayerWarning"@.len() == 22);
            assert(es[13].0 == "skipMultiplayerWarning"@);
            assert(es[13].0 != "fancyGraphics"@);
        } else if j == 14 {
            assert("skipRealms32bitWarning"@.len() == 22);
            assert(es[14].0 == "skipRealms32bitWarning"@);
            assert(es[14].0 != "fancyGraphics"@);
        } else if j == 15 {
            assert("hideMatchedNames"@.len() == 16);
            assert(es[15].0 == "hideMatchedNames"@);
            assert(es[15].0 != "fancyGraphics"@);
        } else if j == 16 {
            assert("joinedFirstServer"@.len() == 17);
            assert(es[16].0 == "joinedFirstServer"@);
            assert(es[16].0 != "fancyGraphics"@);
        } else if j == 17 {
            assert("hideBundleTutorial"@.len() == 18);
            assert(es[17].0 == "hideBundleTutorial"@);
            assert(es[17].0 != "fancyGraphics"@);
        } else if j == 18 {
            assert("syncChunkWrites"@.len() == 15);
            assert(es[18].0 == "syncChunkWrites"@);
            assert(es[18].0 != "fancyGraphics"@);
        } else if j == 19 {
            assert("showAutosaveIndicator"@.len() == 21);
            assert(es[19].0 == "showAutosaveIndicator"@);
            assert(es[19].0 != "fancyGraphics"@);
        } else if j == 20 {
            assert("allowServerListing"@.len() == 18);
            assert(es[20].0 == "allowServerListing"@);
            assert(es[20].0 != "fancyGraphics"@);
        } else if j == 21 {
            assert("snooperEnabled"@.len() == 14);
            assert(es[21].0 == "snooperEnabled"@);
            assert(es[21].0 != "fancyGraphics"@);
        }
    }
}

proof fn lemma_stream_lack_fancy_graphics(o: ClientOptions, g: VersionGates)
    ensures
        forall|j: int| 0 <= j < stream_entries(o, g).len() ==> (#[trigger] stream_entries(o, g)[j]).0 != "fancyGraphics"@,
{
    reveal_strlit("fancyGraphics");
    reveal_strlit("streamBytesPerPixel");
    reveal_strlit("streamChatEnabled");
    reveal_strlit("streamChatUserFilter");
    reveal_strlit("streamCompression");
    reveal_strlit("streamFps");
    reveal_strlit("streamKbps");
    reveal_strlit("streamMicToggleBehavior");
    reveal_strlit("streamMicVolume");
    reveal_strlit("streamSendMetadata");
    reveal_strlit("streamSystemVolume");
    let es = stream_entries(o, g);
    assert("fancyGraphics"@.len() == 13);
    assert(es.len() == 11);
    assert forall|j: int| 0 <= j < es.len() implies (#[trigger] es[j]).0 != "fancyGraphics"@ by {
        if j == 0 {
            assert("streamBytesPerPixel"@.len() == 19);
            assert(es[0].0 == "streamBytesPerPixel"@);
            assert(es[0].0 != "fancyGraphics"@);
        } else if j == 1 {
            assert("streamChatEnabled"@.len() == 17);
            assert(es[1].0 == "streamChatEnabled"@);
            assert(es[1].0 != "fancyGraphics"@);
        } else if j == 2 {
            assert("streamChatUserFilter"@.len() == 20);
            assert(es[2].0 == "streamChatUserFilter"@);
            assert(es[2].0 != "fancyGraphics"@);
        } else if j == 3 {
            assert("streamCompression"@.len() == 17);
            assert(es[3].0 == "streamCompression"@);
            assert(es[3].0 != "fancyGraphics"@);
        } else if j == 4 {
            assert("streamFps"@.len() == 9);
            assert(es[4].0 == "streamFps"@);
            assert(es[4].0 != "fancyGraphics"@);
        } else if j == 5 {
            assert("streamKbps"@.len() == 10);
            assert(es[5].0 == "streamKbps"@);
            assert(es[5].0 != "fancyGraphics"@);
        } else if j == 6 {
            assert("streamMicToggleBehavior"@.len() == 23);
            assert(es[6].0 == "streamMicToggleBehavior"@);
            assert(es[6].0 != "fancyGraphics"@);
        } else if j == 7 {
            assert("streamMicVolume"@.len() == 15);
            assert(es[7].0 == "streamMicVolume"@);
            assert(es[7].0 != "fancyGraphics"@);
        } else if j == 8 {
            assert("streamKbps"@.len() == 10);
            assert(es[8].0 == "streamKbps"@);
            assert(es[8].0 != "fancyGraphics"@);
        } else if j == 9 {
            assert("streamSendMetadata"@.len() == 18);
            assert(es[9].0 == "streamSendMetadata"@);
            assert(es[9].0 != "fancyGraphics"@);
        } else if j == 10 {
            assert("streamSystemVolume"@.len() == 18);
            assert(es[10].0 == "streamSystemVolume"@);
            assert(es[10].0 != "fancyGraphics"@);
        }
    }
}

proof fn lemma_key_lack_fancy_graphics(o: ClientOptions, g: VersionGates)
    ensures
        forall|j: int| 0 <= j < key_entries(o, g).len() ==> (#[trigger] key_entries(o, g)[j]).0 != "fancyGraphics"@,
{
    reveal_strlit("fancyGraphics");
    reveal_strlit("key_key.advancements");
    reveal_strlit("key_key.attack");
    reveal_strlit("key_key.back");
    reveal_strlit("key_key.boss_mode");
    reveal_strlit("key_key.chat");
    reveal_strlit("key_key.command");
    reveal_strlit("key_key.decrease_view");
    reveal_strlit("key_key.drop");
    reveal_strlit("key_key.forward");
    reveal_strlit("key_key.fullscreen");
    reveal_strlit("key_key.hotbar.1");
    reveal_strlit("key_key.hotbar.2");
    reveal_strlit("key_key.hotbar.3");
    reveal_strlit("key_key.hotbar.4");
    reveal_strlit("key_key.hotbar.5");
    reveal_strlit("key_key.hotbar.6");
    reveal_strlit("key_key.hotbar.7");
    reveal_strlit("key_key.hotbar.8");
    reveal_strlit("key_key.hotbar.9");
    reveal_strlit("key_key.increase_view");
    reveal_strlit("key_key.inventory");
    reveal_strlit("key_key.jump");
    reveal_strlit("key_key.left");
    reveal_strlit("key_key.loadToolbarActivator");
    reveal_strlit("key_key.pickItem");
    reveal_strlit("key_key.playerlist");
    reveal_strlit("key_key.right");
    reveal_strlit("key_key.saveToolbarActivator");
    reveal_strlit("key_key.screenshot");
    reveal_strlit("key_key.smoothCamera");
    reveal_strlit("key_key.sneak");
    reveal_strlit("key_key.socialInteractions");
    reveal_strlit("key_key.spectatorOutlines");
    reveal_strlit("key_key.sprint");
    reveal_strlit("key_key.streamCommercial");
    reveal_strlit("key_key.streamPauseUnpause");
    reveal_strlit("key_key.streamStartStop");
    reveal_strlit("key_key.streamToggleMic");
    reveal_strlit("key_key.swapHands");
    reveal_strlit("key_key.swapOffhand");
    reveal_strlit("key_key.togglePerspective");
    reveal_strlit("key_key.use");
    let es = key_entries(o, g);
    assert("fancyGraphics"@.len() == 13);
    assert(es.len() == 41);
    assert forall|j: int| 0 <= j < es.len() implies (#[trigger] es[j]).0 != "fancyGraphics"@ by {
        if j == 0 {
            assert("key_key.attack"@.len() == 14);
            assert(es[0].0 == "key_key.attack"@);
            assert(es[0].0 != "fancyGraphics"@);
        } else if j == 1 {
            assert("key_key.use"@.len() == 11);
            assert(es[1].0 == "key_key.use"@);
            assert(es[1].0 != "fancyGraphics"@);
        } else if j == 2 {
            assert("key_key.forward"@.len() == 15);
            assert(es[2].0 == "key_key.forward"@);
            assert(es[2].0 != "fancyGraphics"@);
        } else if j == 3 {
            assert("key_key.left"@.len() == 12);
            assert(es[3].0 == "key_key.left"@);
            assert(es[3].0 != "fancyGraphics"@);
        } else if j == 4 {
            assert("key_key.back"@.len() == 12);
            assert(es[4].0 == "key_key.back"@);
            assert(es[4].0 != "fancyGraphics"@);
        } else if j == 5 {
            assert("key_key.right"@[0] == 'k' && "fancyGraphics"@[0] == 'f');
            assert(es[5].0 == "key_key.right"@);
            assert(es[5].0 != "fancyGraphics"@);
        } else if j == 6 {
            assert("key_key.jump"@.len() == 12);
            assert(es[6].0 == "key_key.jump"@);
            assert(es[6].0 != "fancyGraphics"@);
        } else if j == 7 {
            assert("key_key.sneak"@[0] == 'k' && "fancyGraphics"@[0] == 'f');
            assert(es[7].0 == "key_key.sneak"@);
            assert(es[7].0 != "fancyGraphics"@);
        } else if j == 8 {
            assert("key_key.sprint"@.len() == 14);
            assert(es[8].0 == "key_key.sprint"@);
            assert(es[8].0 != "fancyGraphics"@);
        } else if j == 9 {
            assert("key_key.drop"@.len() == 12);
            assert(es[9].0 == "key_key.drop"@);
            assert(es[9].0 != "fancyGraphics"@);
        } else if j == 10 {
            assert("key_key.inventory"@.len() == 17);
            assert(es[10].0 == "key_key.inventory"@);
            assert(es[10].0 != "fancyGraphics"@);
        } else if j == 11 {
            assert("key_key.chat"@.len() == 12);
            assert(es[11].0 == "key_key.chat"@);
            assert(es[11].0 != "fancyGraphics"@);
        } else if j == 12 {
            assert("key_key.playerlist"@.len() == 18);
            assert(es[12].0 == "key_key.playerlist"@);
            assert(es[12].0 != "fancyGraphics"@);
        } else if j == 13 {
            assert("key_key.pickItem"@.len() == 16);
            assert(es[13].0 == "key_key.pickItem"@);
            assert(es[13].0 != "fancyGraphics"@);
        } else if j == 14 {
            assert("key_key.command"@.len() == 15);
            assert(es[14].0 == "key_key.command"@);
            assert(es[14].0 != "fancyGraphics"@);
        } else if j == 15 {
            assert("key_key.socialInteractions"@.len() == 26);
            assert(es[15].0 == "key_key.socialInteractions"@);
            assert(es[15].0 != "fancyGraphics"@);
        } else if j == 16 {
            assert("key_key.screenshot"@.len() == 18);
            assert(es[16].0 == "key_key.screenshot"@);
            assert(es[16].0 != "fancyGraphics"@);
        } else if j == 17 {
            assert("key_key.togglePerspective"@.len() == 25);
            assert(es[17].0 == "key_key.togglePerspective"@);
            assert(es[17].0 != "fancyGraphics"@);
        } else if j == 18 {
            assert("key_key.smoothCamera"@.len() == 20);
            assert(es[18].0 == "key_key.smoothCamera"@);
            assert(es[18].0 != "fancyGraphics"@);
        } else if j == 19 {
            assert("key_key.fullscreen"@.len() == 18);
            assert(es[19].0 == "key_key.fullscreen"@);
            assert(es[19].0 != "fancyGraphics"@);
        } else if j == 20 {
            assert("key_key.spectatorOutlines"@.len() == 25);
            assert(es[20].0 == "key_key.spectatorOutlines"@);
            assert(es[20].0 != "fancyGraphics"@);
        } else if j == 21 {
            assert("key_key.swapHands"@.len() == 17);
            assert("key_key.swapOffhand"@.len() == 19);
            assert(es[21].0 != "fancyGraphics"@);
        } else if j == 22 {
            assert("key_key.saveToolbarActivator"@.len() == 28);
            assert(es[22].0 == "key_key.saveToolbarActivator"@);
            assert(es[22].0 != "fancyGraphics"@);
        } else if j == 23 {
            assert("key_key.loadToolbarActivator"@.len() == 28);
            assert(es[23].0 == "key_key.loadToolbarActivator"@);
            assert(es[23].0 != "fancyGraphics"@);
        } else if j == 24 {
            assert("key_key.advancements"@.len() == 20);
            assert(es[24].0 == "key_key.advancements"@);
            assert(es[24].0 != "fancyGraphics"@);
        } else if j == 25 {
            assert("key_key.hotbar.1"@.len() == 16);
            assert(es[25].0 == "key_key.hotbar.1"@);
            assert(es[25].0 != "fancyGraphics"@);
        } else if j == 26 {
            assert("key_key.hotbar.2"@.len() == 16);
            assert(es[26].0 == "key_key.hotbar.2"@);
            assert(es[26].0 != "fancyGraphics"@);
        } else if j == 27 {
            assert("key_key.hotbar.3"@.len() == 16);
            assert(es[27].0 == "key_key.hotbar.3"@);
            assert(es[27].0 != "fancyGraphics"@);
        } else if j == 28 {
            assert("key_key.hotbar.4"@.len() == 16);
            assert(es[28].0 == "key_key.hotbar.4"@);
            assert(es[28].0 != "fancyGraphics"@);
        } else if j == 29 {
            assert("key_key.hotbar.5"@.len() == 16);
            assert(es[29].0 == "key_key.hotbar.5"@);
            assert(es[29].0 != "fancyGraphics"@);
        } else if j == 30 {
            assert("key_key.hotbar.6"@.len() == 16);
            assert(es[30].0 == "key_key.hotbar.6"@);
            assert(es[30].0 != "fancyGraphics"@);
        } else if j == 31 {
            assert("key_key.hotbar.7"@.len() == 16);
            assert(es[31].0 == "key_key.hotbar.7"@);
            assert(es[31].0 != "fancyGraphics"@);
        } else if j == 32 {
            assert("key_key.hotbar.8"@.len() == 16);
            assert(es[32].0 == "key_key.hotbar.8"@);
            assert(es[32].0 != "fancyGraphics"@);
        } else if j == 33 {
            assert("key_key.hotbar.9"@.len() == 16);
            assert(es[33].0 == "key_key.hotbar.9"@);
            assert(es[33].0 != "fancyGraphics"@);
        } else if j == 34 {
            assert("key_key.boss_mode"@.len() == 17);
            assert(es[34].0 == "key_key.boss_mode"@);
            assert(es[34].0 != "fancyGraphics"@);
        } else if j == 35 {
            assert("key_key.decrease_view"@.len() == 21);
            assert(es[35].0 == "key_key.decrease_view"@);
            assert(es[35].0 != "fancyGraphics"@);
        } else if j == 36 {
            assert("key_key.increase_view"@.len() == 21);
            assert(es[36].0 == "key_key.increase_view"@);
            assert(es[36].0 != "fancyGraphics"@);
        } else if j == 37 {
            assert("key_key.streamCommercial"@.len() == 24);
            assert(es[37].0 == "key_key.streamCommercial"@);
            assert(es[37].0 != "fancyGraphics"@);
        } else if j == 38 {
            assert("key_key.streamPauseUnpause"@.len() == 26);
            assert(es[38].0 == "key_key.streamPauseUnpause"@);
            assert(es[38].0 != "fancyGraphics"@);
        } else if j == 39 {
            assert("key_key.streamStartStop"@.len() == 23);
            assert(es[39].0 == "key_key.streamStartStop"@);
            assert(es[39].0 != "fancyGraphics"@);
        } else if j == 40 {
            assert("key_key.streamToggleMic"@.len() == 23);
            assert(es[40].0 == "key_key.streamToggleMic"@);
            assert(es[40].0 != "fancyGraphics"@);
        }
    }
}

proof fn lemma_sound_lack_fancy_graphics(o: ClientOptions, g: VersionGates)
    ensures
        forall|j: int| 0 <= j < sound_entries(o, g).len() ==> (#[trigger] sound_entries(o, g)[j]).0 != "fancyGraphics"@,
{
    reveal_strlit("allowBlockAlternatives");
    reveal_strlit("fancyGraphics");
    reveal_strlit("fullscreenResolution");
    reveal_strlit("modelPart_cape");
    reveal_strlit("modelPart_hat");
    reveal_strlit("modelPart_jacket");
    reveal_strlit("modelPart_left_pants_leg");
    reveal_strlit("modelPart_left_sleeve");
    reveal_strlit("modelPart_right_pants_leg");
    reveal_strlit("modelPart_right_sleeve");
    reveal_strlit("showCape");
    reveal_strlit("sound");
    reveal_strlit("soundCategory_ambient");
    reveal_strlit("soundCategory_animals");
    reveal_strlit("soundCategory_block");
    reveal_strlit("soundCategory_blocks");
    reveal_strlit("soundCategory_hostile");
    reveal_strlit("soundCategory_master");
    reveal_strlit("soundCategory_mobs");
    reveal_strlit("soundCategory_music");
    reveal_strlit("soundCategory_neutral");
    reveal_strlit("soundCategory_player");
    reveal_strlit("soundCategory_players");
    reveal_strlit("soundCategory_record");
    reveal_strlit("soundCategory_records");
    reveal_strlit("soundCategory_voice");
    reveal_strlit("soundCategory_weather");
    let es = sound_entries(o, g);
    assert("fancyGraphics"@.len() == 13);
    assert(es.len() == 20);
    assert forall|j: int| 0 <= j < es.len() implies (#[trigger] es[j]).0 != "fancyGraphics"@ by {
        if j == 0 {
            assert("soundCategory_master"@.len() == 20);
            assert(es[0].0 == "soundCategory_master"@);
            assert(es[0].0 != "fancyGraphics"@);
        } else if j == 1 {
            assert("soundCategory_music"@.len() == 19);
            assert(es[1].0 == "soundCategory_music"@);
            assert(es[1].0 != "fancyGraphics"@);
        } else if j == 2 {
            assert("soundCategory_records"@.len() == 21);
            assert("soundCategory_record"@.len() == 20);
            assert(es[2].0 != "fancyGraphics"@);
        } else if j == 3 {
            assert("soundCategory_weather"@.len() == 21);
            assert(es[3].0 == "soundCategory_weather"@);
            assert(es[3].0 != "fancyGraphics"@);
        } else if j == 4 {
            assert("soundCategory_blocks"@.len() == 20);
            assert("soundCategory_block"@.len() == 19);
            assert(es[4].0 != "fancyGraphics"@);
        } else if j == 5 {
            assert("soundCategory_mobs"@.len() == 18);
            assert("soundCategory_hostile"@.len() == 21);
            assert(es[5].0 != "fancyGraphics"@);
        } else if j == 6 {
            assert("soundCategory_animals"@.len() == 21);
            assert("soundCategory_neutral"@.len() == 21);
            assert(es[6].0 != "fancyGraphics"@);
        } else if j == 7 {
            assert("soundCategory_players"@.len() == 21);
            assert("soundCategory_player"@.len() == 20);
            assert(es[7].0 != "fancyGraphics"@);
        } else if j == 8 {
            assert("soundCategory_ambient"@.len() == 21);
            assert(es[8].0 == "soundCategory_ambient"@);
            assert(es[8].0 != "fancyGraphics"@);
        } else if j == 9 {
            assert("soundCategory_voice"@.len() == 19);
            assert(es[9].0 == "soundCategory_voice"@);
            assert(es[9].0 != "fancyGraphics"@);
        } else if j == 10 {
            assert("sound"@.len() == 5);
            assert(es[10].0 == "sound"@);
            assert(es[10].0 != "fancyGraphics"@);
        } else if j == 11 {
            assert("showCape"@.len() == 8);
            assert("modelPart_cape"@.len() == 14);
            assert(es[11].0 != "fancyGraphics"@);
        } else if j == 12 {
            assert("modelPart_jacket"@.len() == 16);
            assert(es[12].0 == "modelPart_jacket"@);
            assert(es[12].0 != "fancyGraphics"@);
        } else if j == 13 {
            assert("modelPart_left_sleeve"@.len() == 21);
            assert(es[13].0 == "modelPart_left_sleeve"@);
            assert(es[13].0 != "fancyGraphics"@);
        } else if j == 14 {
            assert("modelPart_right_sleeve"@.len() == 22);
            assert(es[14].0 == "modelPart_right_sleeve"@);
            assert(es[14].0 != "fancyGraphics"@);
        } else if j == 15 {
            assert("modelPart_left_pants_leg"@.len() == 24);
            assert(es[15].0 == "modelPart_left_pants_leg"@);
            assert(es[15].0 != "fancyGraphics"@);
        } else if j == 16 {
            assert("modelPart_right_pants_leg"@.len() == 25);
            assert(es[16].0 == "modelPart_right_pants_leg"@);
            assert(es[16].0 != "fancyGraphics"@);
        } else if j == 17 {
            assert("modelPart_hat"@[0] == 'm' && "fancyGraphics"@[0] == 'f');
            assert(es[17].0 == "modelPart_hat"@);
            assert(es[17].0 != "fancyGraphics"@);
        } else if j == 18 {
            assert("allowBlockAlternatives"@.len() == 22);
            assert(es[18].0 == "allowBlockAlternatives"@);
            assert(es[18].0 != "fancyGraphics"@);
        } else if j == 19 {
            assert("fullscreenResolution"@.len() == 20);
            assert(es[19].0 == "fullscreenResolution"@);
            assert(es[19].0 != "fancyGraphics"@);
        }
    }
}

/// For game versions before 20w27a, a set graphics mode is written under `fancyGraphics`,
/// unless a custom key sets it: "true" for the fancy and fabulous modes and for a positive
/// mode number, "false" for the fast mode and for any other number.
pub proof fn law_old_versions_write_fancy_graphics(o: ClientOptions, g: VersionGates, m: GraphicsMode)
    requires
        g.before_20w27a,
        o.video.graphics_mode == Some(m),
        !o.custom.map().contains_key("fancyGraphics"@),
    ensures
        spec_create_keys(o, g).contains_key("fancyGraphics"@),
        m is Fancy ==> spec_create_keys(o, g)["fancyGraphics"@] == seq!['t', 'r', 'u', 'e'],
        m is Fabulous ==> spec_create_keys(o, g)["fancyGraphics"@] == seq!['t', 'r', 'u', 'e'],
        m is Fast ==> spec_create_keys(o, g)["fancyGraphics"@] == seq!['f', 'a', 'l', 's', 'e'],
        m matches GraphicsMode::Number(n) ==> spec_create_keys(o, g)["fancyGraphics"@] == if n > 0 {
            seq!['t', 'r', 'u', 'e']
        } else {
            seq!['f', 'a', 'l', 's', 'e']
        },
{
    let k = "fancyGraphics"@;
    let m1 = apply_entries(Map::empty(), general_entries(o, g));
    let es = display_entries(o, g);
    lemma_display_lack_fancy_graphics(o, g);
    lemma_notice_lack_fancy_graphics(o, g);
    lemma_stream_lack_fancy_graphics(o, g);
    lemma_key_lack_fancy_graphics(o, g);
    lemma_sound_lack_fancy_graphics(o, g);
    assert(es[0].0 == k);
    law_last_entry_wins(m1, es, 0);
    let m2 = apply_entries(m1, es);
    let m2b = apply_entries(m2, notice_entries(o, g));
    let m3 = apply_entries(m2b, stream_entries(o, g));
    let m4 = apply_entries(m3, key_entries(o, g));
    law_unwritten_key_kept(m2, notice_entries(o, g), k);
    law_unwritten_key_kept(m2b, stream_entries(o, g), k);
    law_unwritten_key_kept(m3, key_entries(o, g), k);
    law_unwritten_key_kept(m4, sound_entries(o, g), k);
    assert(!texts(o.custom.map()).contains_key(k));
}

proof fn lemma_general_lack_version(o: ClientOptions, g: VersionGates)
    ensures
        forall|j: int| 1 <= j < general_entries(o, g).len() ==> (#[trigger] general_entries(o, g)[j]).0 != "version"@,
{
    reveal_strlit("autoJump");
    reveal_strlit("autoSuggestions");
    reveal_strlit("bobView");
    reveal_strlit("chatColors");
    reveal_strlit("chatLinks");
    reveal_strlit("chatLinksPrompt");
    reveal_strlit("darkMojangStudiosBackground");
    reveal_strlit("darknessEffectScale");
    reveal_strlit("difficulty");
    reveal_strlit("directionalAudio");
    reveal_strlit("discrete_mouse_scroll");
    reveal_strlit("enableVsync");
    reveal_strlit("entityDistanceScaling");
    reveal_strlit("entityShadows");
    reveal_strlit("forceUnicodeFont");
    reveal_strlit("fov");
    reveal_strlit("fovEffectScale");
    reveal_strlit("fullscreen");
    reveal_strlit("gamma");
    reveal_strlit("guiScale");
    reveal_strlit("hideLightningFlashes");
    reveal_strlit("invertYMouse");
    reveal_strlit("maxFps");
    reveal_strlit("mouseSensitivity");
    reveal_strlit("particles");
    reveal_strlit("prioritizeChunkUpdates");
    reveal_strlit("realmsNotifications");
    reveal_strlit("reducedDebugInfo");
    reveal_strlit("renderDistance");
    reveal_strlit("screenEffectScale");
    reveal_strlit("showSubtitles");
    reveal_strlit("simulationDistance");
    reveal_strlit("soundDevice");
    reveal_strlit("toggleCrouch");
    reveal_strlit("toggleSprint");
    reveal_strlit("touchscreen");
    reveal_strlit("version");
    let es = general_entries(o, g);
    assert("version"@.len() == 7);
    assert(es.len() == 37);
    assert forall|j: int| 1 <= j < es.len() implies (#[trigger] es[j]).0 != "version"@ by {
        if j == 1 {
            assert("autoJump"@.len() == 8);
            assert(es[1].0 == "autoJump"@);
            assert(es[1].0 != "version"@);
        } else if j == 2 {
            assert("fullscreen"@.len() == 10);
            assert(es[2].0 == "fullscreen"@);
            assert(es[2].0 != "version"@);
        } else if j == 3 {
            assert("autoSuggestions"@.len() == 15);
            assert(es[3].0 == "autoSuggestions"@);
            assert(es[3].0 != "version"@);
        } else if j == 4 {
            assert("chatColors"@.len() == 10);
            assert(es[4].0 == "chatColors"@);
            assert(es[4].0 != "version"@);
        } else if j == 5 {
            assert("chatLinks"@.len() == 9);
            assert(es[5].0 == "chatLinks"@);
            assert(es[5].0 != "version"@);
        } else if j == 6 {
            assert("chatLinksPrompt"@.len() == 15);
            assert(es[6].0 == "chatLinksPrompt"@);
            assert(es[6].0 != "version"@);
        } else if j == 7 {
            assert("enableVsync"@.len() == 11);
            assert(es[7].0 == "enableVsync"@);
            assert(es[7].0 != "version"@);
        } else if j == 8 {
            assert("entityShadows"@.len() == 13);
            assert(es[8].0 == "entityShadows"@);
            assert(es[8].0 != "version"@);
        } else if j == 9 {
            assert("forceUnicodeFont"@.len() == 16);
            assert(es[9].0 == "forceUnicodeFont"@);
            assert(es[9].0 != "version"@);
        } else if j == 10 {
            assert("discrete_mouse_scroll"@.len() == 21);
            assert(es[10].0 == "discrete_mouse_scroll"@);
            assert(es[10].0 != "version"@);
        } else if j == 11 {
            assert("invertYMouse"@.len() == 12);
            assert(es[11].0 == "invertYMouse"@);
            assert(es[11].0 != "version"@);
        } else if j == 12 {
            assert("realmsNotifications"@.len() == 19);
            assert(es[12].0 == "realmsNotifications"@);
            assert(es[12].0 != "version"@);
        } else if j == 13 {
            assert("reducedDebugInfo"@.len() == 16);
            assert(es[13].0 == "reducedDebugInfo"@);
            assert(es[13].0 != "version"@);
        } else if j == 14 {
            assert("showSubtitles"@.len() == 13);
            assert(es[14].0 == "showSubtitles"@);
            assert(es[14].0 != "version"@);
        } else if j == 15 {
            assert("directionalAudio"@.len() == 16);
            assert(es[15].0 == "directionalAudio"@);
            assert(es[15].0 != "version"@);
        } else if j == 16 {
            assert("touchscreen"@.len() == 11);
            assert(es[16].0 == "touchscreen"@);
            assert(es[16].0 != "version"@);
        } else if j == 17 {
            assert("bobView"@[0] == 'b' && "version"@[0] == 'v');
            assert(es[17].0 == "bobView"@);
            assert(es[17].0 != "version"@);
        } else if j == 18 {
            assert("toggleCrouch"@.len() == 12);
            assert(es[18].0 == "toggleCrouch"@);
            assert(es[18].0 != "version"@);
        } else if j == 19 {
            assert("toggleSprint"@.len() == 12);
            assert(es[19].0 == "toggleSprint"@);
            assert(es[19].0 != "version"@);
        } else if j == 20 {
            assert("darkMojangStudiosBackground"@.len() == 27);
            assert(es[20].0 == "darkMojangStudiosBackground"@);
            assert(es[20].0 != "version"@);
        } else if j == 21 {
            assert("hideLightningFlashes"@.len() == 20);
            assert(es[21].0 == "hideLightningFlashes"@);
            assert(es[21].0 != "version"@);
        } else if j == 22 {
            assert("prioritizeChunkUpdates"@.len() == 22);
            assert(es[22].0 == "prioritizeChunkUpdates"@);
            assert(es[22].0 != "version"@);
        } else if j == 23 {
            assert("soundDevice"@.len() == 11);
            assert(es[23].0 == "soundDevice"@);
            assert(es[23].0 != "version"@);
        } else if j == 24 {
            assert("mouseSensitivity"@.len() == 16);
            assert(es[24].0 == "mouseSensitivity"@);
            assert(es[24].0 != "version"@);
        } else if j == 25 {
            assert("fov"@.len() == 3);
            assert(es[25].0 == "fov"@);
            assert(es[25].0 != "version"@);
        } else if j == 26 {
            assert("screenEffectScale"@.len() == 17);
            assert(es[26].0 == "screenEffectScale"@);
            assert(es[26].0 != "version"@);
        } else if j == 27 {
            assert("fovEffectScale"@.len() == 14);
            assert(es[27].0 == "fovEffectScale"@);
            assert(es[27].0 != "version"@);
        } else if j == 28 {
            assert("darknessEffectScale"@.len() == 19);
            assert(es[28].0 == "darknessEffectScale"@);
            assert(es[28].0 != "version"@);
        } else if j == 29 {
            assert("gamma"@.len() == 5);
            assert(es[29].0 == "gamma"@);
            assert(es[29].0 != "version"@);
        } else if j == 30 {
            assert("renderDistance"@.len() == 14);
            assert(es[30].0 == "renderDistance"@);
            assert(es[30].0 != "version"@);
        } else if j == 31 {
            assert("simulationDistance"@.len() == 18);
            assert(es[31].0 == "simulationDistance"@);
            assert(es[31].0 != "version"@);
        } else if j == 32 {
            assert("entityDistanceScaling"@.len() == 21);
            assert(es[32].0 == "entityDistanceScaling"@);
            assert(es[32].0 != "version"@);
        } else if j == 33 {
            assert("guiScale"@.len() == 8);
            assert(es[33].0 == "guiScale"@);
            assert(es[33].0 != "version"@);
        } else if j == 34 {
            assert("particles"@.len() == 9);
            assert(es[34].0 == "particles"@);
            assert(es[34].0 != "version"@);
        } else if j == 35 {
            assert("maxFps"@.len() == 6);
            assert(es[35].0 == "maxFps"@);
            assert(es[35].0 != "version"@);
        } else if j == 36 {
            assert("difficulty"@.len() == 10);
            assert(es[36].0 == "difficulty"@);
            assert(es[36].0 != "version"@);
        }
    }
}

proof fn lemma_display_lack_version(o: ClientOptions, g: VersionGates)
    ensures
        forall|j: int| 0 <= j < display_entries(o, g).len() ==> (#[trigger] display_entries(o, g)[j]).0 != "version"@,
{
    reveal_strlit("advancedItemTooltips");
    reveal_strlit("ao");
    reveal_strlit("backgroundForChatOnly");
    reveal_strlit("biomeBlendRadius");
    reveal_strlit("chatLineSpacing");
    reveal_strlit("chatOpacity");
    reveal_strlit("chatVisibility");
    reveal_strlit("clouds");
    reveal_strlit("fancyGraphics");
    reveal_strlit("graphicsMode");
    reveal_strlit("heldItemTooltips");
    reveal_strlit("hideServerAddress");
    reveal_strlit("lang");
    reveal_strlit("overrideHeight");
    reveal_strlit("overrideWidth");
    reveal_strlit("pauseOnLostFocus");
    reveal_strlit("renderClouds");
    reveal_strlit("resourcePacks");
    reveal_strlit("textBackgroundOpacity");
    reveal_strlit("version");
    let es = display_entries(o, g);
    assert("version"@.len() == 7);
    assert(es.len() == 19);
    assert forall|j: int| 0 <= j < es.len() implies (#[trigger] es[j]).0 != "version"@ by {
        if j == 0 {
            assert("fancyGraphics"@.len() == 13);
            assert(es[0].0 == "fancyGraphics"@);
            assert(es[0].0 != "version"@);
        } else if j == 1 {
            assert("graphicsMode"@.len() == 12);
            assert(es[1].0 == "graphicsMode"@);
            assert(es[1].0 != "version"@);
        } else if j == 2 {
            assert("ao"@.len() == 2);
            assert(es[2].0 == "ao"@);
            assert(es[2].0 != "version"@);
        } else if j == 3 {
            assert("biomeBlendRadius"@.len() == 16);
            assert(es[3].0 == "biomeBlendRadius"@);
            assert(es[3].0 != "version"@);
        } else if j == 4 {
            assert("renderClouds"@.len() == 12);
            assert(es[4].0 == "renderClouds"@);
            assert(es[4].0 != "version"@);
        } else if j == 5 {
            assert("clouds"@.len() == 6);
            assert(es[5].0 == "clouds"@);
            assert(es[5].0 != "version"@);
        } else if j == 6 {
            assert("resourcePacks"@.len() == 13);
            assert(es[6].0 == "resourcePacks"@);
            assert(es[6].0 != "version"@);
        } else if j == 7 {
            assert("lang"@.len() == 4);
            assert(es[7].0 == "lang"@);
            assert(es[7].0 != "version"@);
        } else if j == 8 {
            assert("chatVisibility"@.len() == 14);
            assert(es[8].0 == "chatVisibility"@);
            assert(es[8].0 != "version"@);
        } else if j == 9 {
            assert("chatOpacity"@.len() == 11);
            assert(es[9].0 == "chatOpacity"@);
            assert(es[9].0 != "version"@);
        } else if j == 10 {
            assert("chatLineSpacing"@.len() == 15);
            assert(es[10].0 == "chatLineSpacing"@);
            assert(es[10].0 != "version"@);
        } else if j == 11 {
            assert("textBackgroundOpacity"@.len() == 21);
            assert(es[11].0 == "textBackgroundOpacity"@);
            assert(es[11].0 != "version"@);
        } else if j == 12 {
            assert("backgroundForChatOnly"@.len() == 21);
            assert(es[12].0 == "backgroundForChatOnly"@);
            assert(es[12].0 != "version"@);
        } else if j == 13 {
            assert("hideServerAddress"@.len() == 17);
            assert(es[13].0 == "hideServerAddress"@);
            assert(es[13].0 != "version"@);
        } else if j == 14 {
            assert("advancedItemTooltips"@.len() == 20);
            assert(es[14].0 == "advancedItemTooltips"@);
            assert(es[14].0 != "version"@);
        } else if j == 15 {
            assert("pauseOnLostFocus"@.len() == 16);
            assert(es[15].0 == "pauseOnLostFocus"@);
            assert(es[15].0 != "version"@);
        } else if j == 16 {
            assert("overrideWidth"@.len() == 13);
            assert(es[16].0 == "overrideWidth"@);
            assert(es[16].0 != "version"@);
        } else if j == 17 {
            assert("overrideHeight"@.len() == 14);
            assert(es[17].0 == "overrideHeight"@);
            assert(es[17].0 != "version"@);
        } else if j == 18 {
            assert("heldItemTooltips"@.len() == 16);
            assert(es[18].0 == "heldItemTooltips"@);
            assert(es[18].0 != "version"@);
        }
    }
}

proof fn lemma_notice_lack_version(o: ClientOptions, g: VersionGates)
    ensures
        forall|j: int| 0 <= j < notice_entries(o, g).len() ==> (#[trigger] notice_entries(o, g)[j]).0 != "version"@,
{
    reveal_strlit("allowServerListing");
    reveal_strlit("chatDelay");
    reveal_strlit("chatHeightFocused");
    reveal_strlit("chatHeightUnfocused");
    reveal_strlit("chatScale");
    reveal_strlit("chatWidth");
    reveal_strlit("glDebugVerbosity");
    reveal_strlit("hideBundleTutorial");
    reveal_strlit("hideMatchedNames");
    reveal_strlit("joinedFirstServer");
    reveal_strlit("mainHand");
    reveal_strlit("mipmapLevels");
    reveal_strlit("mouseWheelSensitivity");
    reveal_strlit("narrator");
    reveal_strlit("rawMouseInput");
    reveal_strlit("showAutosaveIndicator");
    reveal_strlit("skipMultiplayerWarning");
    reveal_strlit("skipRealms32bitWarning");
    reveal_strlit("snooperEnabled");
    reveal_strlit("syncChunkWrites");
    reveal_strlit("tutorialStep");
    reveal_strlit("useNativeTransport");
    reveal_strlit("version");
    let es = notice_entries(o, g);
    assert("version"@.len() == 7);
    assert(es.len() == 22);
    assert forall|j: int| 0 <= j < es.len() implies (#[trigger] es[j]).0 != "version"@ by {
        if j == 0 {
            assert("chatHeightFocused"@.len() == 17);
            assert(es[0].0 == "chatHeightFocused"@);
            assert(es[0].0 != "version"@);
        } else if j == 1 {
            assert("chatDelay"@.len() == 9);
            assert(es[1].0 == "chatDelay"@);
            assert(es[1].0 != "version"@);
        } else if j == 2 {
            assert("chatHeightUnfocused"@.len() == 19);
            assert(es[2].0 == "chatHeightUnfocused"@);
            assert(es[2].0 != "version"@);
        } else if j == 3 {
            assert("chatScale"@.len() == 9);
            assert(es[3].0 == "chatScale"@);
            assert(es[3].0 != "version"@);
        } else if j == 4 {
            assert("chatWidth"@.len() == 9);
            assert(es[4].0 == "chatWidth"@);
            assert(es[4].0 != "version"@);
        } else if j == 5 {
            assert("mipmapLevels"@.len() == 12);
            assert(es[5].0 == "mipmapLevels"@);
            assert(es[5].0 != "version"@);
        } else if j == 6 {
            assert("useNativeTransport"@.len() == 18);
            assert(es[6].0 == "useNativeTransport"@);
            assert(es[6].0 != "version"@);
        } else if j == 7 {
            assert("mainHand"@.len() == 8);
            assert(es[7].0 == "mainHand"@);
            assert(es[7].0 != "version"@);
        } else if j == 8 {
            assert("narrator"@.len() == 8);
            assert(es[8].0 == "narrator"@);
            assert(es[8].0 != "version"@);
        } else if j == 9 {
            assert("tutorialStep"@.len() == 12);
            assert(es[9].0 == "tutorialStep"@);
            assert(es[9].0 != "version"@);
        } else if j == 10 {
            assert("mouseWheelSensitivity"@.len() == 21);
            assert(es[10].0 == "mouseWheelSensitivity"@);
            assert(es[10].0 != "version"@);
        } else if j == 11 {
            assert("rawMouseInput"@.len() == 13);
            assert(es[11].0 == "rawMouseInput"@);
            assert(es[11].0 != "version"@);
        } else if j == 12 {
            assert("glDebugVerbosity"@.len() == 16);
            assert(es[12].0 == "glDebugVerbosity"@);
            assert(es[12].0 != "version"@);
        } else if j == 13 {
            assert("skipMultiplayerWarning"@.len() == 22);
            assert(es[13].0 == "skipMultiplayerWarning"@);
            assert(es[13].0 != "version"@);
        } else if j == 14 {
            assert("skipRealms32bitWarning"@.len() == 22);
            assert(es[14].0 == "skipRealms32bitWarning"@);
            assert(es[14].0 != "version"@);
        } else if j == 15 {
            assert("hideMatchedNames"@.len() == 16);
            assert(es[15].0 == "hideMatchedNames"@);
            assert(es[15].0 != "version"@);
        } else if j == 16 {
            assert("joinedFirstServer"@.len() == 17);
            assert(es[16].0 == "joinedFirstServer"@);
            assert(es[16].0 != "version"@);
        } else if j == 17 {
            assert("hideBundleTutorial"@.len() == 18);
            assert(es[17].0 == "hideBundleTutorial"@);
            assert(es[17].0 != "version"@);
        } else if j == 18 {
            assert("syncChunkWrites"@.len() == 15);
            assert(es[18].0 == "syncChunkWrites"@);
            assert(es[18].0 != "version"@);
        } else if j == 19 {
            assert("showAutosaveIndicator"@.len() == 21);
            assert(es[19].0 == "showAutosaveIndicator"@);
            assert(es[19].0 != "version"@);
        } else if j == 20 {
            assert("allowServerListing"@.len() == 18);
            assert(es[20].0 == "allowServerListing"@);
            assert(es[20].0 != "version"@);
        } else if j == 21 {
            assert("snooperEnabled"@.len() == 14);
            assert(es[21].0 == "snooperEnabled"@);
            assert(es[21].0 != "version"@);
        }
    }
}

proof fn lemma_stream_lack_version(o: ClientOptions, g: VersionGates)
    ensures
        forall|j: int| 0 <= j < stream_entries(o, g).len() ==> (#[trigger] stream_entries(o, g)[j]).0 != "version"@,
{
    reveal_strlit("streamBytesPerPixel");
    reveal_strlit("streamChatEnabled");
    reveal_strlit("streamChatUserFilter");
    reveal_strlit("streamCompression");
    reveal_strlit("streamFps");
    reveal_strlit("streamKbps");
    reveal_strlit("streamMicToggleBehavior");
    reveal_strlit("streamMicVolume");
    reveal_strlit("streamSendMetadata");
    reveal_strlit("streamSystemVolume");
    reveal_strlit("version");
    let es = stream_entries(o, g);
    assert("version"@.len() == 7);
    assert(es.len() == 11);
    assert forall|j: int| 0 <= j < es.len() implies (#[trigger] es[j]).0 != "version"@ by {
        if j == 0 {
            assert("streamBytesPerPixel"@.len() == 19);
            assert(es[0].0 == "streamBytesPerPixel"@);
            assert(es[0].0 != "version"@);
        } else if j == 1 {
            assert("streamChatEnabled"@.len() == 17);
            assert(es[1].0 == "streamChatEnabled"@);
            assert(es[1].0 != "version"@);
        } else if j == 2 {
            assert("streamChatUserFilter"@.len() == 20);
            assert(es[2].0 == "streamChatUserFilter"@);
            assert(es[2].0 != "version"@);
        } else if j == 3 {
            assert("streamCompression"@.len() == 17);
            assert(es[3].0 == "streamCompression"@);
            assert(es[3].0 != "version"@);
        } else if j == 4 {
            assert("streamFps"@.len() == 9);
            assert(es[4].0 == "streamFps"@);
            assert(es[4].0 != "version"@);
        } else if j == 5 {
            assert("streamKbps"@.len() == 10);
            assert(es[5].0 == "streamKbps"@);
            assert(es[5].0 != "version"@);
        } else if j == 6 {
            assert("streamMicToggleBehavior"@.len() == 23);
            assert(es[6].0 == "streamMicToggleBehavior"@);
            assert(es[6].0 != "version"@);
        } else if j == 7 {
            assert("streamMicVolume"@.len() == 15);
            assert(es[7].0 == "streamMicVolume"@);
            assert(es[7].0 != "version"@);
        } else if j == 8 {
            assert("streamKbps"@.len() == 10);
            assert(es[8].0 == "streamKbps"@);
            assert(es[8].0 != "version"@);
        } else if j == 9 {
            assert("streamSendMetadata"@.len() == 18);
            assert(es[9].0 == "streamSendMetadata"@);
            assert(es[9].0 != "version"@);
        } else if j == 10 {
            assert("streamSystemVolume"@.len() == 18);
            assert(es[10].0 == "streamSystemVolume"@);
            assert(es[10].0 != "version"@);
        }
    }
}

proof fn lemma_key_lack_version(o: ClientOptions, g: VersionGates)
    ensures
        forall|j: int| 0 <= j < key_entries(o, g).len() ==> (#[trigger] key_entries(o, g)[j]).0 != "version"@,
{
    reveal_strlit("key_key.advancements");
    reveal_strlit("key_key.attack");
    reveal_strlit("key_key.back");
    reveal_strlit("key_key.boss_mode");
    reveal_strlit("key_key.chat");
    reveal_strlit("key_key.command");
    reveal_strlit("key_key.decrease_view");
    reveal_strlit("key_key.drop");
    reveal_strlit("key_key.forward");
    reveal_strlit("key_key.fullscreen");
    reveal_strlit("key_key.hotbar.1");
    reveal_strlit("key_key.hotbar.2");
    reveal_strlit("key_key.hotbar.3");
    reveal_strlit("key_key.hotbar.4");
    reveal_strlit("key_key.hotbar.5");
    reveal_strlit("key_key.hotbar.6");
    reveal_strlit("key_key.hotbar.7");
    reveal_strlit("key_key.hotbar.8");
    reveal_strlit("key_key.hotbar.9");
    reveal_strlit("key_key.increase_view");
    reveal_strlit("key_key.inventory");
    reveal_strlit("key_key.jump");
    reveal_strlit("key_key.left");
    reveal_strlit("key_key.loadToolbarActivator");
    reveal_strlit("key_key.pickItem");
    reveal_strlit("key_key.playerlist");
    reveal_strlit("key_key.right");
    reveal_strlit("key_key.saveToolbarActivator");
    reveal_strlit("key_key.screenshot");
    reveal_strlit("key_key.smoothCamera");
    reveal_strlit("key_key.sneak");
    reveal_strlit("key_key.socialInteractions");
    reveal_strlit("key_key.spectatorOutlines");
    reveal_strlit("key_key.sprint");
    reveal_strlit("key_key.streamCommercial");
    reveal_strlit("key_key.streamPauseUnpause");
    reveal_strlit("key_key.streamStartStop");
    reveal_strlit("key_key.streamToggleMic");
    reveal_strlit("key_key.swapHands");
    reveal_strlit("key_key.swapOffhand");
    reveal_strlit("key_key.togglePerspective");
    reveal_strlit("key_key.use");
    reveal_strlit("version");
    let es = key_entries(o, g);
    assert("version"@.len() == 7);
    assert(es.len() == 41);
    assert forall|j: int| 0 <= j < es.len() implies (#[trigger] es[j]).0 != "version"@ by {
        if j == 0 {
            assert("key_key.attack"@.len() == 14);
            assert(es[0].0 == "key_key.attack"@);
            assert(es[0].0 != "version"@);
        } else if j == 1 {
            assert("key_key.use"@.len() == 11);
            assert(es[1].0 == "key_key.use"@);
            assert(es[1].0 != "version"@);
        } else if j == 2 {
            assert("key_key.forward"@.len() == 15);
            assert(es[2].0 == "key_key.forward"@);
            assert(es[2].0 != "version"@);
        } else if j == 3 {
            assert("key_key.left"@.len() == 12);
            assert(es[3].0 == "key_key.left"@);
            assert(es[3].0 != "version"@);
        } else if j == 4 {
            assert("key_key.back"@.len() == 12);
            assert(es[4].0 == "key_key.back"@);
            assert(es[4].0 != "version"@);
        } else if j == 5 {
            assert("key_key.right"@.len() == 13);
            assert(es[5].0 == "key_key.right"@);
            assert(es[5].0 != "version"@);
        } else if j == 6 {
            assert("key_key.jump"@.len() == 12);
            assert(es[6].0 == "key_key.jump"@);
            assert(es[6].0 != "version"@);
        } else if j == 7 {
            assert("key_key.sneak"@.len() == 13);
            assert(es[7].0 == "key_key.sneak"@);
            assert(es[7].0 != "version"@);
        } else if j == 8 {
            assert("key_key.sprint"@.len() == 14);
            assert(es[8].0 == "key_key.sprint"@);
            assert(es[8].0 != "version"@);
        } else if j == 9 {
            assert("key_key.drop"@.len() == 12);
            assert(es[9].0 == "key_key.drop"@);
            assert(es[9].0 != "version"@);
        } else if j == 10 {
            assert("key_key.inventory"@.len() == 17);
            assert(es[10].0 == "key_key.inventory"@);
            assert(es[10].0 != "version"@);
        } else if j == 11 {
            assert("key_key.chat"@.len() == 12);
            assert(es[11].0 == "key_key.chat"@);
            assert(es[11].0 != "version"@);
        } else if j == 12 {
            assert("key_key.playerlist"@.len() == 18);
            assert(es[12].0 == "key_key.playerlist"@);
            assert(es[12].0 != "version"@);
        } else if j == 13 {
            assert("key_key.pickItem"@.len() == 16);
            assert(es[13].0 == "key_key.pickItem"@);
            assert(es[13].0 != "version"@);
        } else if j == 14 {
            assert("key_key.command"@.len() == 15);
            assert(es[14].0 == "key_key.command"@);
            assert(es[14].0 != "version"@);
        } else if j == 15 {
            assert("key_key.socialInteractions"@.len() == 26);
            assert(es[15].0 == "key_key.socialInteractions"@);
            assert(es[15].0 != "version"@);
        } else if j == 16 {
            assert("key_key.screenshot"@.len() == 18);
            assert(es[16].0 == "key_key.screenshot"@);
            assert(es[16].0 != "version"@);
        } else if j == 17 {
            assert("key_key.togglePerspective"@.len() == 25);
            assert(es[17].0 == "key_key.togglePerspective"@);
            assert(es[17].0 != "version"@);
        } else if j == 18 {
            assert("key_key.smoothCamera"@.len() == 20);
            assert(es[18].0 == "key_key.smoothCamera"@);
            assert(es[18].0 != "version"@);
        } else if j == 19 {
            assert("key_key.fullscreen"@.len() == 18);
            assert(es[19].0 == "key_key.fullscreen"@);
            assert(es[19].0 != "version"@);
        } else if j == 20 {
            assert("key_key.spectatorOutlines"@.len() == 25);
            assert(es[20].0 == "key_key.spectatorOutlines"@);
            assert(es[20].0 != "version"@);
        } else if j == 21 {
            assert("key_key.swapHands"@.len() == 17);
            assert("key_key.swapOffhand"@.len() == 19);
            assert(es[21].0 != "version"@);
        } else if j == 22 {
            assert("key_key.saveToolbarActivator"@.len() == 28);
            assert(es[22].0 == "key_key.saveToolbarActivator"@);
            assert(es[22].0 != "version"@);
        } else if j == 23 {
            assert("key_key.loadToolbarActivator"@.len() == 28);
            assert(es[23].0 == "key_key.loadToolbarActivator"@);
            assert(es[23].0 != "version"@);
        } else if j == 24 {
            assert("key_key.advancements"@.len() == 20);
            assert(es[24].0 == "key_key.advancements"@);
            assert(es[24].0 != "version"@);
        } else if j == 25 {
            assert("key_key.hotbar.1"@.len() == 16);
            assert(es[25].0 == "key_key.hotbar.1"@);
            assert(es[25].0 != "version"@);
        } else if j == 26 {
            assert("key_key.hotbar.2"@.len() == 16);
            assert(es[26].0 == "key_key.hotbar.2"@);
            assert(es[26].0 != "version"@);
        } else if j == 27 {
            assert("key_key.hotbar.3"@.len() == 16);
            assert(es[27].0 == "key_key.hotbar.3"@);
            assert(es[27].0 != "version"@);
        } else if j == 28 {
            assert("key_key.hotbar.4"@.len() == 16);
            assert(es[28].0 == "key_key.hotbar.4"@);
            assert(es[28].0 != "version"@);
        } else if j == 29 {
            assert("key_key.hotbar.5"@.len() == 16);
            assert(es[29].0 == "key_key.hotbar.5"@);
            assert(es[29].0 != "version"@);
        } else if j == 30 {
            assert("key_key.hotbar.6"@.len() == 16);
            assert(es[30].0 == "key_key.hotbar.6"@);
            assert(es[30].0 != "version"@);
        } else if j == 31 {
            assert("key_key.hotbar.7"@.len() == 16);
            assert(es[31].0 == "key_key.hotbar.7"@);
            assert(es[31].0 != "version"@);
        } else if j == 32 {
            assert("key_key.hotbar.8"@.len() == 16);
            assert(es[32].0 == "key_key.hotbar.8"@);
            assert(es[32].0 != "version"@);
        } else if j == 33 {
            assert("key_key.hotbar.9"@.len() == 16);
            assert(es[33].0 == "key_key.hotbar.9"@);
            assert(es[33].0 != "version"@);
        } else if j == 34 {
            assert("key_key.boss_mode"@.len() == 17);
            assert(es[34].0 == "key_key.boss_mode"@);
            assert(es[34].0 != "version"@);
        } else if j == 35 {
            assert("key_key.decrease_view"@.len() == 21);
            assert(es[35].0 == "key_key.decrease_view"@);
            assert(es[35].0 != "version"@);
        } else if j == 36 {
            assert("key_key.increase_view"@.len() == 21);
            assert(es[36].0 == "key_key.increase_view"@);
            assert(es[36].0 != "version"@);
        } else if j == 37 {
            assert("key_key.streamCommercial"@.len() == 24);
            assert(es[37].0 == "key_key.streamCommercial"@);
            assert(es[37].0 != "version"@);
        } else if j == 38 {
            assert("key_key.streamPauseUnpause"@.len() == 26);
            assert(es[38].0 == "key_key.streamPauseUnpause"@);
            assert(es[38].0 != "version"@);
        } else if j == 39 {
            assert("key_key.streamStartStop"@.len() == 23);
            assert(es[39].0 == "key_key.streamStartStop"@);
            assert(es[39].0 != "version"@);
        } else if j == 40 {
            assert("key_key.streamToggleMic"@.len() == 23);
            assert(es[40].0 == "key_key.streamToggleMic"@);
            assert(es[40].0 != "version"@);
        }
    }
}

proof fn lemma_sound_lack_version(o: ClientOptions, g: VersionGates)
    ensures
        forall|j: int| 0 <= j < sound_entries(o, g).len() ==> (#[trigger] sound_entries(o, g)[j]).0 != "version"@,
{
    reveal_strlit("allowBlockAlternatives");
    reveal_strlit("fullscreenResolution");
    reveal_strlit("modelPart_cape");
    reveal_strlit("modelPart_hat");
    reveal_strlit("modelPart_jacket");
    reveal_strlit("modelPart_left_pants_leg");
    reveal_strlit("modelPart_left_sleeve");
    reveal_strlit("modelPart_right_pants_leg");
    reveal_strlit("modelPart_right_sleeve");
    reveal_strlit("showCape");
    reveal_strlit("sound");
    reveal_strlit("soundCategory_ambient");
    reveal_strlit("soundCategory_animals");
    reveal_strlit("soundCategory_block");
    reveal_strlit("soundCategory_blocks");
    reveal_strlit("soundCategory_hostile");
    reveal_strlit("soundCategory_master");
    reveal_strlit("soundCategory_mobs");
    reveal_strlit("soundCategory_music");
    reveal_strlit("soundCategory_neutral");
    reveal_strlit("soundCategory_player");
    reveal_strlit("soundCategory_players");
    reveal_strlit("soundCategory_record");
    reveal_strlit("soundCategory_records");
    reveal_strlit("soundCategory_voice");
    reveal_strlit("soundCategory_weather");
    reveal_strlit("version");
    let es = sound_entries(o, g);
    assert("version"@.len() == 7);
    assert(es.len() == 20);
    assert forall|j: int| 0 <= j < es.len() implies (#[trigger] es[j]).0 != "version"@ by {
        if j == 0 {
            assert("soundCategory_master"@.len() == 20);
            assert(es[0].0 == "soundCategory_master"@);
            assert(es[0].0 != "version"@);
        } else if j == 1 {
            assert("soundCategory_music"@.len() == 19);
            assert(es[1].0 == "soundCategory_music"@);
            assert(es[1].0 != "version"@);
        } else if j == 2 {
            assert("soundCategory_records"@.len() == 21);
            assert("soundCategory_record"@.len() == 20);
            assert(es[2].0 != "version"@);
        } else if j == 3 {
            assert("soundCategory_weather"@.len() == 21);
            assert(es[3].0 == "soundCategory_weather"@);
            assert(es[3].0 != "version"@);
        } else if j == 4 {
            assert("soundCategory_blocks"@.len() == 20);
            assert("soundCategory_block"@.len() == 19);
            assert(es[4].0 != "version"@);
        } else if j == 5 {
            assert("soundCategory_mobs"@.len() == 18);
            assert("soundCategory_hostile"@.len() == 21);
            assert(es[5].0 != "version"@);
        } else if j == 6 {
            assert("soundCategory_animals"@.len() == 21);
            assert("soundCategory_neutral"@.len() == 21);
            assert(es[6].0 != "version"@);
        } else if j == 7 {
            assert("soundCategory_players"@.len() == 21);
            assert("soundCategory_player"@.len() == 20);
            assert(es[7].0 != "version"@);
        } else if j == 8 {
            assert("soundCategory_ambient"@.len() == 21);
            assert(es[8].0 == "soundCategory_ambient"@);
            assert(es[8].0 != "version"@);
        } else if j == 9 {
            assert("soundCategory_voice"@.len() == 19);
            assert(es[9].0 == "soundCategory_voice"@);
            assert(es[9].0 != "version"@);
        } else if j == 10 {
            assert("sound"@.len() == 5);
            assert(es[10].0 == "sound"@);
            assert(es[10].0 != "version"@);
        } else if j == 11 {
            assert("showCape"@.len() == 8);
            assert("modelPart_cape"@.len() == 14);
            assert(es[11].0 != "version"@);
        } else if j == 12 {
            assert("modelPart_jacket"@.len() == 16);
            assert(es[12].0 == "modelPart_jacket"@);
            assert(es[12].0 != "version"@);
        } else if j == 13 {
            assert("modelPart_left_sleeve"@.len() == 21);
            assert(es[13].0 == "modelPart_left_sleeve"@);
            assert(es[13].0 != "version"@);
        } else if j == 14 {
            assert("modelPart_right_sleeve"@.len() == 22);
            assert(es[14].0 == "modelPart_right_sleeve"@);
            assert(es[14].0 != "version"@);
        } else if j == 15 {
            assert("modelPart_left_pants_leg"@.len() == 24);
            assert(es[15].0 == "modelPart_left_pants_leg"@);
            assert(es[15].0 != "version"@);
        } else if j == 16 {
            assert("modelPart_right_pants_leg"@.len() == 25);
            assert(es[16].0 == "modelPart_right_pants_leg"@);
            assert(es[16].0 != "version"@);
        } else if j == 17 {
            assert("modelPart_hat"@.len() == 13);
            assert(es[17].0 == "modelPart_hat"@);
            assert(es[17].0 != "version"@);
        } else if j == 18 {
            assert("allowBlockAlternatives"@.len() == 22);
            assert(es[18].0 == "allowBlockAlternatives"@);
            assert(es[18].0 != "version"@);
        } else if j == 19 {
            assert("fullscreenResolution"@.len() == 20);
            assert(es[19].0 == "fullscreenResolution"@);
            assert(es[19].0 != "version"@);
        }
    }
}

proof fn lemma_key_lack_key_key_attack(o: ClientOptions, g: VersionGates)
    ensures
        forall|j: int| 1 <= j < key_entries(o, g).len() ==> (#[trigger] key_entries(o, g)[j]).0 != "key_key.attack"@,
{
    reveal_strlit("key_key.advancements");
    reveal_strlit("key_key.attack");
    reveal_strlit("key_key.back");
    reveal_strlit("key_key.boss_mode");
    reveal_strlit("key_key.chat");
    reveal_strlit("key_key.command");
    reveal_strlit("key_key.decrease_view");
    reveal_strlit("key_key.drop");
    reveal_strlit("key_key.forward");
    reveal_strlit("key_key.fullscreen");
    reveal_strlit("key_key.hotbar.1");
    reveal_strlit("key_key.hotbar.2");
    reveal_strlit("key_key.hotbar.3");
    reveal_strlit("key_key.hotbar.4");
    reveal_strlit("key_key.hotbar.5");
    reveal_strlit("key_key.hotbar.6");
    reveal_strlit("key_key.hotbar.7");
    reveal_strlit("key_key.hotbar.8");
    reveal_strlit("key_key.hotbar.9");
    reveal_strlit("key_key.increase_view");
    reveal_strlit("key_key.inventory");
    reveal_strlit("key_key.jump");
    reveal_strlit("key_key.left");
    reveal_strlit("key_key.loadToolbarActivator");
    reveal_strlit("key_key.pickItem");
    reveal_strlit("key_key.playerlist");
    reveal_strlit("key_key.right");
    reveal_strlit("key_key.saveToolbarActivator");
    reveal_strlit("key_key.screenshot");
    reveal_strlit("key_key.smoothCamera");
    reveal_strlit("key_key.sneak");
    reveal_strlit("key_key.socialInteractions");
    reveal_strlit("key_key.spectatorOutlines");
    reveal_strlit("key_key.sprint");
    reveal_strlit("key_key.streamCommercial");
    reveal_strlit("key_key.streamPauseUnpause");
    reveal_strlit("key_key.streamStartStop");
    reveal_strlit("key_key.streamToggleMic");
    reveal_strlit("key_key.swapHands");
    reveal_strlit("key_key.swapOffhand");
    reveal_strlit("key_key.togglePerspective");
    reveal_strlit("key_key.use");
    let es = key_entries(o, g);
    assert("key_key.attack"@.len() == 14);
    assert(es.len() == 41);
    assert forall|j: int| 1 <= j < es.len() implies (#[trigger] es[j]).0 != "key_key.attack"@ by {
        if j == 1 {
            assert("key_key.use"@.len() == 11);
            assert(es[1].0 == "key_key.use"@);
            assert(es[1].0 != "key_key.attack"@);
        } else if j == 2 {
            assert("key_key.forward"@.len() == 15);
            assert(es[2].0 == "key_key.forward"@);
            assert(es[2].0 != "key_key.attack"@);
        } else if j == 3 {
            assert("key_key.left"@.len() == 12);
            assert(es[3].0 == "key_key.left"@);
            assert(es[3].0 != "key_key.attack"@);
        } else if j == 4 {
            assert("key_key.back"@.len() == 12);
            assert(es[4].0 == "key_key.back"@);
            assert(es[4].0 != "key_key.attack"@);
        } else if j == 5 {
            assert("key_key.right"@.len() == 13);
            assert(es[5].0 == "key_key.right"@);
            assert(es[5].0 != "key_key.attack"@);
        } else if j == 6 {
            assert("key_key.jump"@.len() == 12);
            assert(es[6].0 == "key_key.jump"@);
            assert(es[6].0 != "key_key.attack"@);
        } else if j == 7 {
            assert("key_key.sneak"@.len() == 13);
            assert(es[7].0 == "key_key.sneak"@);
            assert(es[7].0 != "key_key.attack"@);
        } else if j == 8 {
            assert("key_key.sprint"@[8] == 's' && "key_key.attack"@[8] == 'a');
            assert(es[8].0 == "key_key.sprint"@);
            assert(es[8].0 != "key_key.attack"@);
        } else if j == 9 {
            assert("key_key.drop"@.len() == 12);
            assert(es[9].0 == "key_key.drop"@);
            assert(es[9].0 != "key_key.attack"@);
        } else if j == 10 {
            assert("key_key.inventory"@.len() == 17);
            assert(es[10].0 == "key_key.inventory"@);
            assert(es[10].0 != "key_key.attack"@);
        } else if j == 11 {
            assert("key_key.chat"@.len() == 12);
            assert(es[11].0 == "key_key.chat"@);
            assert(es[11].0 != "key_key.attack"@);
        } else if j == 12 {
            assert("key_key.playerlist"@.len() == 18);
            assert(es[12].0 == "key_key.playerlist"@);
            assert(es[12].0 != "key_key.attack"@);
        } else if j == 13 {
            assert("key_key.pickItem"@.len() == 16);
            assert(es[13].0 == "key_key.pickItem"@);
            assert(es[13].0 != "key_key.attack"@);
        } else if j == 14 {
            assert("key_key.command"@.len() == 15);
            assert(es[14].0 == "key_key.command"@);
            assert(es[14].0 != "key_key.attack"@);
        } else if j == 15 {
            assert("key_key.socialInteractions"@.len() == 26);
            assert(es[15].0 == "key_key.socialInteractions"@);
            assert(es[15].0 != "key_key.attack"@);
        } else if j == 16 {
            assert("key_key.screenshot"@.len() == 18);
            assert(es[16].0 == "key_key.screenshot"@);
            assert(es[16].0 != "key_key.attack"@);
        } else if j == 17 {
            assert("key_key.togglePerspective"@.len() == 25);
            assert(es[17].0 == "key_key.togglePerspective"@);
            assert(es[17].0 != "key_key.attack"@);
        } else if j == 18 {
            assert("key_key.smoothCamera"@.len() == 20);
            assert(es[18].0 == "key_key.smoothCamera"@);
            assert(es[18].0 != "key_key.attack"@);
        } else if j == 19 {
            assert("key_key.fullscreen"@.len() == 18);
            assert(es[19].0 == "key_key.fullscreen"@);
            assert(es[19].0 != "key_key.attack"@);
        } else if j == 20 {
            assert("key_key.spectatorOutlines"@.len() == 25);
            assert(es[20].0 == "key_key.spectatorOutlines"@);
            assert(es[20].0 != "key_key.attack"@);
        } else if j == 21 {
            assert("key_key.swapHands"@.len() == 17);
            assert("key_key.swapOffhand"@.len() == 19);
            assert(es[21].0 != "key_key.attack"@);
        } else if j == 22 {
            assert("key_key.saveToolbarActivator"@.len() == 28);
            assert(es[22].0 == "key_key.saveToolbarActivator"@);
            assert(es[22].0 != "key_key.attack"@);
        } else if j == 23 {
            assert("key_key.loadToolbarActivator"@.len() == 28);
            assert(es[23].0 == "key_key.loadToolbarActivator"@);
            assert(es[23].0 != "key_key.attack"@);
        } else if j == 24 {
            assert("key_key.advancements"@.len() == 20);
            assert(es[24].0 == "key_key.advancements"@);
            assert(es[24].0 != "key_key.attack"@);
        } else if j == 25 {
            assert("key_key.hotbar.1"@.len() == 16);
            assert(es[25].0 == "key_key.hotbar.1"@);
            assert(es[25].0 != "key_key.attack"@);
        } else if j == 26 {
            assert("key_key.hotbar.2"@.len() == 16);
            assert(es[26].0 == "key_key.hotbar.2"@);
            assert(es[26].0 != "key_key.attack"@);
        } else if j == 27 {
            assert("key_key.hotbar.3"@.len() == 16);
            assert(es[27].0 == "key_key.hotbar.3"@);
            assert(es[27].0 != "key_key.attack"@);
        } else if j == 28 {
            assert("key_key.hotbar.4"@.len() == 16);
            assert(es[28].0 == "key_key.hotbar.4"@);
            assert(es[28].0 != "key_key.attack"@);
        } else if j == 29 {
            assert("key_key.hotbar.5"@.len() == 16);
            assert(es[29].0 == "key_key.hotbar.5"@);
            assert(es[29].0 != "key_key.attack"@);
        } else if j == 30 {
            assert("key_key.hotbar.6"@.len() == 16);
            assert(es[30].0 == "key_key.hotbar.6"@);
            assert(es[30].0 != "key_key.attack"@);
        } else if j == 31 {
            assert("key_key.hotbar.7"@.len() == 16);
            assert(es[31].0 == "key_key.hotbar.7"@);
            assert(es[31].0 != "key_key.attack"@);
        } else if j == 32 {
            assert("key_key.hotbar.8"@.len() == 16);
            assert(es[32].0 == "key_key.hotbar.8"@);
            assert(es[32].0 != "key_key.attack"@);
        } else if j == 33 {
            assert("key_key.hotbar.9"@.len() == 16);
            assert(es[33].0 == "key_key.hotbar.9"@);
            assert(es[33].0 != "key_key.attack"@);
        } else if j == 34 {
            assert("key_key.boss_mode"@.len() == 17);
            assert(es[34].0 == "key_key.boss_mode"@);
            assert(es[34].0 != "key_key.attack"@);
        } else if j == 35 {
            assert("key_key.decrease_view"@.len() == 21);
            assert(es[35].0 == "key_key.decrease_view"@);
            assert(es[35].0 != "key_key.attack"@);
        } else if j == 36 {
            assert("key_key.increase_view"@.len() == 21);
            assert(es[36].0 == "key_key.increase_view"@);
            assert(es[36].0 != "key_key.attack"@);
        } else if j == 37 {
            assert("key_key.streamCommercial"@.len() == 24);
            assert(es[37].0 == "key_key.streamCommercial"@);
            assert(es[37].0 != "key_key.attack"@);
        } else if j == 38 {
            assert("key_key.streamPauseUnpause"@.len() == 26);
            assert(es[38].0 == "key_key.streamPauseUnpause"@);
            assert(es[38].0 != "key_key.attack"@);
        } else if j == 39 {
            assert("key_key.streamStartStop"@.len() == 23);
            assert(es[39].0 == "key_key.streamStartStop"@);
            assert(es[39].0 != "key_key.attack"@);
        } else if j == 40 {
            assert("key_key.streamToggleMic"@.len() == 23);
            assert(es[40].0 == "key_key.streamToggleMic"@);
            assert(es[40].0 != "key_key.attack"@);
        }
    }
}

proof fn lemma_sound_lack_key_key_attack(o: ClientOptions, g: VersionGates)
    ensures
        forall|j: int| 0 <= j < sound_entries(o, g).len() ==> (#[trigger] sound_entries(o, g)[j]).0 != "key_key.attack"@,
{
    reveal_strlit("allowBlockAlternatives");
    reveal_strlit("fullscreenResolution");
    reveal_strlit("key_key.attack");
    reveal_strlit("modelPart_cape");
    reveal_strlit("modelPart_hat");
    reveal_strlit("modelPart_jacket");
    reveal_strlit("modelPart_left_pants_leg");
    reveal_strlit("modelPart_left_sleeve");
    reveal_strlit("modelPart_right_pants_leg");
    reveal_strlit("modelPart_right_sleeve");
    reveal_strlit("showCape");
    reveal_strlit("sound");
    reveal_strlit("soundCategory_ambient");
    reveal_strlit("soundCategory_animals");
    reveal_strlit("soundCategory_block");
    reveal_strlit("soundCategory_blocks");
    reveal_strlit("soundCategory_hostile");
    reveal_strlit("soundCategory_master");
    reveal_strlit("soundCategory_mobs");
    reveal_strlit("soundCategory_music");
    reveal_strlit("soundCategory_neutral");
    reveal_strlit("soundCategory_player");
    reveal_strlit("soundCategory_players");
    reveal_strlit("soundCategory_record");
    reveal_strlit("soundCategory_records");
    reveal_strlit("soundCategory_voice");
    reveal_strlit("soundCategory_weather");
    let es = sound_entries(o, g);
    assert("key_key.attack"@.len() == 14);
    assert(es.len() == 20);
    assert forall|j: int| 0 <= j < es.len() implies (#[trigger] es[j]).0 != "key_key.attack"@ by {
        if j == 0 {
            assert("soundCategory_master"@.len() == 20);
            assert(es[0].0 == "soundCategory_master"@);
            assert(es[0].0 != "key_key.attack"@);
        } else if j == 1 {
            assert("soundCategory_music"@.len() == 19);
            assert(es[1].0 == "soundCategory_music"@);
            assert(es[1].0 != "key_key.attack"@);
        } else if j == 2 {
            assert("soundCategory_records"@.len() == 21);
            assert("soundCategory_record"@.len() == 20);
            assert(es[2].0 != "key_key.attack"@);
        } else if j == 3 {
            assert("soundCategory_weather"@.len() == 21);
            assert(es[3].0 == "soundCategory_weather"@);
            assert(es[3].0 != "key_key.attack"@);
        } else if j == 4 {
            assert("soundCategory_blocks"@.len() == 20);
            assert("soundCategory_block"@.len() == 19);
            assert(es[4].0 != "key_key.attack"@);
        } else if j == 5 {
            assert("soundCategory_mobs"@.len() == 18);
            assert("soundCategory_hostile"@.len() == 21);
            assert(es[5].0 != "key_key.attack"@);
        } else if j == 6 {
            assert("soundCategory_animals"@.len() == 21);
            assert("soundCategory_neutral"@.len() == 21);
            assert(es[6].0 != "key_key.attack"@);
        } else if j == 7 {
            assert("soundCategory_players"@.len() == 21);
            assert("soundCategory_player"@.len() == 20);
            assert(es[7].0 != "key_key.attack"@);
        } else if j == 8 {
            assert("soundCategory_ambient"@.len() == 21);
            assert(es[8].0 == "soundCategory_ambient"@);
            assert(es[8].0 != "key_key.attack"@);
        } else if j == 9 {
            assert("soundCategory_voice"@.len() == 19);
            assert(es[9].0 == "soundCategory_voice"@);
            assert(es[9].0 != "key_key.attack"@);
        } else if j == 10 {
            assert("sound"@.len() == 5);
            assert(es[10].0 == "sound"@);
            assert(es[10].0 != "key_key.attack"@);
        } else if j == 11 {
            assert("showCape"@.len() == 8);
            assert("modelPart_cape"@[0] == 'm' && "key_key.attack"@[0] == 'k');
            assert(es[11].0 != "key_key.attack"@);
        } else if j == 12 {
            assert("modelPart_jacket"@.len() == 16);
            assert(es[12].0 == "modelPart_jacket"@);
            assert(es[12].0 != "key_key.attack"@);
        } else if j == 13 {
            assert("modelPart_left_sleeve"@.len() == 21);
            assert(es[13].0 == "modelPart_left_sleeve"@);
            assert(es[13].0 != "key_key.attack"@);
        } else if j == 14 {
            assert("modelPart_right_sleeve"@.len() == 22);
            assert(es[14].0 == "modelPart_right_sleeve"@);
            assert(es[14].0 != "key_key.attack"@);
        } else if j == 15 {
            assert("modelPart_left_pants_leg"@.len() == 24);
            assert(es[15].0 == "modelPart_left_pants_leg"@);
            assert(es[15].0 != "key_key.attack"@);
        } else if j == 16 {
            assert("modelPart_right_pants_leg"@.len() == 25);
            assert(es[16].0 == "modelPart_right_pants_leg"@);
            assert(es[16].0 != "key_key.attack"@);
        } else if j == 17 {
            assert("modelPart_hat"@.len() == 13);
            assert(es[17].0 == "modelPart_hat"@);
            assert(es[17].0 != "key_key.attack"@);
        } else if j == 18 {
            assert("allowBlockAlternatives"@.len() == 22);
            assert(es[18].0 == "allowBlockAlternatives"@);
            assert(es[18].0 != "key_key.attack"@);
        } else if j == 19 {
            assert("fullscreenResolution"@.len() == 20);
            assert(es[19].0 == "fullscreenResolution"@);
            assert(es[19].0 != "key_key.attack"@);
        }
    }
}

proof fn lemma_display_lack_renderclouds(o: ClientOptions, g: VersionGates)
    ensures
        forall|j: int| 5 <= j < display_entries(o, g).len() ==> (#[trigger] display_entries(o, g)[j]).0 != "renderClouds"@,
{
    reveal_strlit("advancedItemTooltips");
    reveal_strlit("backgroundForChatOnly");
    reveal_strlit("chatLineSpacing");
    reveal_strlit("chatOpacity");
    reveal_strlit("chatVisibility");
    reveal_strlit("clouds");
    reveal_strlit("heldItemTooltips");
    reveal_strlit("hideServerAddress");
    reveal_strlit("lang");
    reveal_strlit("overrideHeight");
    reveal_strlit("overrideWidth");
    reveal_strlit("pauseOnLostFocus");
    reveal_strlit("renderClouds");
    reveal_strlit("resourcePacks");
    reveal_strlit("textBackgroundOpacity");
    let es = display_entries(o, g);
    assert("renderClouds"@.len() == 12);
    assert(es.len() == 19);
    assert forall|j: int| 5 <= j < es.len() implies (#[trigger] es[j]).0 != "renderClouds"@ by {
        if j == 5 {
            assert("clouds"@.len() == 6);
            assert(es[5].0 == "clouds"@);
            assert(es[5].0 != "renderClouds"@);
        } else if j == 6 {
            assert("resourcePacks"@.len() == 13);
            assert(es[6].0 == "resourcePacks"@);
            assert(es[6].0 != "renderClouds"@);
        } else if j == 7 {
            assert("lang"@.len() == 4);
            assert(es[7].0 == "lang"@);
            assert(es[7].0 != "renderClouds"@);
        } else if j == 8 {
            assert("chatVisibility"@.len() == 14);
            assert(es[8].0 == "chatVisibility"@);
            assert(es[8].0 != "renderClouds"@);
        } else if j == 9 {
            assert("chatOpacity"@.len() == 11);
            assert(es[9].0 == "chatOpacity"@);
            assert(es[9].0 != "renderClouds"@);
        } else if j == 10 {
            assert("chatLineSpacing"@.len() == 15);
            assert(es[10].0 == "chatLineSpacing"@);
            assert(es[10].0 != "renderClouds"@);
        } else if j == 11 {
            assert("textBackgroundOpacity"@.len() == 21);
            assert(es[11].0 == "textBackgroundOpacity"@);
            assert(es[11].0 != "renderClouds"@);
        } else if j == 12 {
            assert("backgroundForChatOnly"@.len() == 21);
            assert(es[12].0 == "backgroundForChatOnly"@);
            assert(es[12].0 != "renderClouds"@);
        } else if j == 13 {
            assert("hideServerAddress"@.len() == 17);
            assert(es[13].0 == "hideServerAddress"@);
            assert(es[13].0 != "renderClouds"@);
        } else if j == 14 {
            assert("advancedItemTooltips"@.len() == 20);
            assert(es[14].0 == "advancedItemTooltips"@);
            assert(es[14].0 != "renderClouds"@);
        } else if j == 15 {
            assert("pauseOnLostFocus"@.len() == 16);
            assert(es[15].0 == "pauseOnLostFocus"@);
            assert(es[15].0 != "renderClouds"@);
        } else if j == 16 {
            assert("overrideWidth"@.len() == 13);
            assert(es[16].0 == "overrideWidth"@);
            assert(es[16].0 != "renderClouds"@);
        } else if j == 17 {
            assert("overrideHeight"@.len() == 14);
            assert(es[17].0 == "overrideHeight"@);
            assert(es[17].0 != "renderClouds"@);
        } else if j == 18 {
            assert("heldItemTooltips"@.len() == 16);
            assert(es[18].0 == "heldItemTooltips"@);
            assert(es[18].0 != "renderClouds"@);
        }
    }
}

proof fn lemma_notice_lack_renderclouds(o: ClientOptions, g: VersionGates)
    ensures
        forall|j: int| 0 <= j < notice_entries(o, g).len() ==> (#[trigger] notice_entries(o, g)[j]).0 != "renderClouds"@,
{
    reveal_strlit("allowServerListing");
    reveal_strlit("chatDelay");
    reveal_strlit("chatHeightFocused");
    reveal_strlit("chatHeightUnfocused");
    reveal_strlit("chatScale");
    reveal_strlit("chatWidth");
    reveal_strlit("glDebugVerbosity");
    reveal_strlit("hideBundleTutorial");
    reveal_strlit("hideMatchedNames");
    reveal_strlit("joinedFirstServer");
    reveal_strlit("mainHand");
    reveal_strlit("mipmapLevels");
    reveal_strlit("mouseWheelSensitivity");
    reveal_strlit("narrator");
    reveal_strlit("rawMouseInput");
    reveal_strlit("renderClouds");
    reveal_strlit("showAutosaveIndicator");
    reveal_strlit("skipMultiplayerWarning");
    reveal_strlit("skipRealms32bitWarning");
    reveal_strlit("snooperEnabled");
    reveal_strlit("syncChunkWrites");
    reveal_strlit("tutorialStep");
    reveal_strlit("useNativeTransport");
    let es = notice_entries(o, g);
    assert("renderClouds"@.len() == 12);
    assert(es.len() == 22);
    assert forall|j: int| 0 <= j < es.len() implies (#[trigger] es[j]).0 != "renderClouds"@ by {
        if j == 0 {
            assert("chatHeightFocused"@.len() == 17);
            assert(es[0].0 == "chatHeightFocused"@);
            assert(es[0].0 != "renderClouds"@);
        } else if j == 1 {
            assert("chatDelay"@.len() == 9);
            assert(es[1].0 == "chatDelay"@);
            assert(es[1].0 != "renderClouds"@);
        } else if j == 2 {
            assert("chatHeightUnfocused"@.len() == 19);
            assert(es[2].0 == "chatHeightUnfocused"@);
            assert(es[2].0 != "renderClouds"@);
        } else if j == 3 {
            assert("chatScale"@.len() == 9);
            assert(es[3].0 == "chatScale"@);
            assert(es[3].0 != "renderClouds"@);
        } else if j == 4 {
            assert("chatWidth"@.len() == 9);
            assert(es[4].0 == "chatWidth"@);
            assert(es[4].0 != "renderClouds"@);
        } else if j == 5 {
            assert("mipmapLevels"@[0] == 'm' && "renderClouds"@[0] == 'r');
            assert(es[5].0 == "mipmapLevels"@);
            assert(es[5].0 != "renderClouds"@);
        } else if j == 6 {
            assert("useNativeTransport"@.len() == 18);
            assert(es[6].0 == "useNativeTransport"@);
            assert(es[6].0 != "renderClouds"@);
        } else if j == 7 {
            assert("mainHand"@.len() == 8);
            assert(es[7].0 == "mainHand"@);
            assert(es[7].0 != "renderClouds"@);
        } else if j == 8 {
            assert("narrator"@.len() == 8);
            assert(es[8].0 == "narrator"@);
            assert(es[8].0 != "renderClouds"@);
        } else if j == 9 {
            assert("tutorialStep"@[0] == 't' && "renderClouds"@[0] == 'r');
            assert(es[9].0 == "tutorialStep"@);
            assert(es[9].0 != "renderClouds"@);
        } else if j == 10 {
            assert("mouseWheelSensitivity"@.len() == 21);
            assert(es[10].0 == "mouseWheelSensitivity"@);
            assert(es[10].0 != "renderClouds"@);
        } else if j == 11 {
            assert("rawMouseInput"@.len() == 13);
            assert(es[11].0 == "rawMouseInput"@);
            assert(es[11].0 != "renderClouds"@);
        } else if j == 12 {
            assert("glDebugVerbosity"@.len() == 16);
            assert(es[12].0 == "glDebugVerbosity"@);
            assert(es[12].0 != "renderClouds"@);
        } else if j == 13 {
            assert("skipMultiplayerWarning"@.len() == 22);
            assert(es[13].0 == "skipMultiplayerWarning"@);
            assert(es[13].0 != "renderClouds"@);
        } else if j == 14 {
            assert("skipRealms32bitWarning"@.len() == 22);
            assert(es[14].0 == "skipRealms32bitWarning"@);
            assert(es[14].0 != "renderClouds"@);
        } else if j == 15 {
            assert("hideMatchedNames"@.len() == 16);
            assert(es[15].0 == "hideMatchedNames"@);
            assert(es[15].0 != "renderClouds"@);
        } else if j == 16 {
            assert("joinedFirstServer"@.len() == 17);
            assert(es[16].0 == "joinedFirstServer"@);
            assert(es[16].0 != "renderClouds"@);
        } else if j == 17 {
            assert("hideBundleTutorial"@.len() == 18);
            assert(es[17].0 == "hideBundleTutorial"@);
            assert(es[17].0 != "renderClouds"@);
        } else if j == 18 {
            assert("syncChunkWrites"@.len() == 15);
            assert(es[18].0 == "syncChunkWrites"@);
            assert(es[18].0 != "renderClouds"@);
        } else if j == 19 {
            assert("showAutosaveIndicator"@.len() == 21);
            assert(es[19].0 == "showAutosaveIndicator"@);
            assert(es[19].0 != "renderClouds"@);
        } else if j == 20 {
            assert("allowServerListing"@.len() == 18);
            assert(es[20].0 == "allowServerListing"@);
            assert(es[20].0 != "renderClouds"@);
        } else if j == 21 {
            assert("snooperEnabled"@.len() == 14);
            assert(es[21].0 == "snooperEnabled"@);
            assert(es[21].0 != "renderClouds"@);
        }
    }
}

proof fn lemma_stream_lack_renderclouds(o: ClientOptions, g: VersionGates)
    ensures
        forall|j: int| 0 <= j < stream_entries(o, g).len() ==> (#[trigger] stream_entries(o, g)[j]).0 != "renderClouds"@,
{
    reveal_strlit("renderClouds");
    reveal_strlit("streamBytesPerPixel");
    reveal_strlit("streamChatEnabled");
    reveal_strlit("streamChatUserFilter");
    reveal_strlit("streamCompression");
    reveal_strlit("streamFps");
    reveal_strlit("streamKbps");
    reveal_strlit("streamMicToggleBehavior");
    reveal_strlit("streamMicVolume");
    reveal_strlit("streamSendMetadata");
    reveal_strlit("streamSystemVolume");
    let es = stream_entries(o, g);
    assert("renderClouds"@.len() == 12);
    assert(es.len() == 11);
    assert forall|j: int| 0 <= j < es.len() implies (#[trigger] es[j]).0 != "renderClouds"@ by {
        if j == 0 {
            assert("streamBytesPerPixel"@.len() == 19);
            assert(es[0].0 == "streamBytesPerPixel"@);
            assert(es[0].0 != "renderClouds"@);
        } else if j == 1 {
            assert("streamChatEnabled"@.len() == 17);
            assert(es[1].0 == "streamChatEnabled"@);
            assert(es[1].0 != "renderClouds"@);
        } else if j == 2 {
            assert("streamChatUserFilter"@.len() == 20);
            assert(es[2].0 == "streamChatUserFilter"@);
            assert(es[2].0 != "renderClouds"@);
        } else if j == 3 {
            assert("streamCompression"@.len() == 17);
            assert(es[3].0 == "streamCompression"@);
            assert(es[3].0 != "renderClouds"@);
        } else if j == 4 {
            assert("streamFps"@.len() == 9);
            assert(es[4].0 == "streamFps"@);
            assert(es[4].0 != "renderClouds"@);
        } else if j == 5 {
            assert("streamKbps"@.len() == 10);
            assert(es[5].0 == "streamKbps"@);
            assert(es[5].0 != "renderClouds"@);
        } else if j == 6 {
            assert("streamMicToggleBehavior"@.len() == 23);
            assert(es[6].0 == "streamMicToggleBehavior"@);
            assert(es[6].0 != "renderClouds"@);
        } else if j == 7 {
            assert("streamMicVolume"@.len() == 15);
            assert(es[7].0 == "streamMicVolume"@);
            assert(es[7].0 != "renderClouds"@);
        } else if j == 8 {
            assert("streamKbps"@.len() == 10);
            assert(es[8].0 == "streamKbps"@);
            assert(es[8].0 != "renderClouds"@);
        } else if j == 9 {
            assert("streamSendMetadata"@.len() == 18);
            assert(es[9].0 == "streamSendMetadata"@);
            assert(es[9].0 != "renderClouds"@);
        } else if j == 10 {
            assert("streamSystemVolume"@.len() == 18);
            assert(es[10].0 == "streamSystemVolume"@);
            assert(es[10].0 != "renderClouds"@);
        }
    }
}

proof fn lemma_key_lack_renderclouds(o: ClientOptions, g: VersionGates)
    ensures
        forall|j: int| 0 <= j < key_entries(o, g).len() ==> (#[trigger] key_entries(o, g)[j]).0 != "renderClouds"@,
{
    reveal_strlit("key_key.advancements");
    reveal_strlit("key_key.attack");
    reveal_strlit("key_key.back");
    reveal_strlit("key_key.boss_mode");
    reveal_strlit("key_key.chat");
    reveal_strlit("key_key.command");
    reveal_strlit("key_key.decrease_view");
    reveal_strlit("key_key.drop");
    reveal_strlit("key_key.forward");
    reveal_strlit("key_key.fullscreen");
    reveal_strlit("key_key.hotbar.1");
    reveal_strlit("key_key.hotbar.2");
    reveal_strlit("key_key.hotbar.3");
    reveal_strlit("key_key.hotbar.4");
    reveal_strlit("key_key.hotbar.5");
    reveal_strlit("key_key.hotbar.6");
    reveal_strlit("key_key.hotbar.7");
    reveal_strlit("key_key.hotbar.8");
    reveal_strlit("key_key.hotbar.9");
    reveal_strlit("key_key.increase_view");
    reveal_strlit("key_key.inventory");
    reveal_strlit("key_key.jump");
    reveal_strlit("key_key.left");
    reveal_strlit("key_key.loadToolbarActivator");
    reveal_strlit("key_key.pickItem");
    reveal_strlit("key_key.playerlist");
    reveal_strlit("key_key.right");
    reveal_strlit("key_key.saveToolbarActivator");
    reveal_strlit("key_key.screenshot");
    reveal_strlit("key_key.smoothCamera");
    reveal_strlit("key_key.sneak");
    reveal_strlit("key_key.socialInteractions");
    reveal_strlit("key_key.spectatorOutlines");
    reveal_strlit("key_key.sprint");
    reveal_strlit("key_key.streamCommercial");
    reveal_strlit("key_key.streamPauseUnpause");
    reveal_strlit("key_key.streamStartStop");
    reveal_strlit("key_key.streamToggleMic");
    reveal_strlit("key_key.swapHands");
    reveal_strlit("key_key.swapOffhand");
    reveal_strlit("key_key.togglePerspective");
    reveal_strlit("key_key.use");
    reveal_strlit("renderClouds");
    let es = key_entries(o, g);
    assert("renderClouds"@.len() == 12);
    assert(es.len() == 41);
    assert forall|j: int| 0 <= j < es.len() implies (#[trigger] es[j]).0 != "renderClouds"@ by {
        if j == 0 {
            assert("key_key.attack"@.len() == 14);
            assert(es[0].0 == "key_key.attack"@);
            assert(es[0].0 != "renderClouds"@);
        } else if j == 1 {
            assert("key_key.use"@.len() == 11);
            assert(es[1].0 == "key_key.use"@);
            assert(es[1].0 != "renderClouds"@);
        } else if j == 2 {
            assert("key_key.forward"@.len() == 15);
            assert(es[2].0 == "key_key.forward"@);
            assert(es[2].0 != "renderClouds"@);
        } else if j == 3 {
            assert("key_key.left"@[0] == 'k' && "renderClouds"@[0] == 'r');
            assert(es[3].0 == "key_key.left"@);
            assert(es[3].0 != "renderClouds"@);
        } else if j == 4 {
            assert("key_key.back"@[0] == 'k' && "renderClouds"@[0] == 'r');
            assert(es[4].0 == "key_key.back"@);
            assert(es[4].0 != "renderClouds"@);
        } else if j == 5 {
            assert("key_key.right"@.len() == 13);
            assert(es[5].0 == "key_key.right"@);
            assert(es[5].0 != "renderClouds"@);
        } else if j == 6 {
            assert("key_key.jump"@[0] == 'k' && "renderClouds"@[0] == 'r');
            assert(es[6].0 == "key_key.jump"@);
            assert(es[6].0 != "renderClouds"@);
        } else if j == 7 {
            assert("key_key.sneak"@.len() == 13);
            assert(es[7].0 == "key_key.sneak"@);
            assert(es[7].0 != "renderClouds"@);
        } else if j == 8 {
            assert("key_key.sprint"@.len() == 14);
            assert(es[8].0 == "key_key.sprint"@);
            assert(es[8].0 != "renderClouds"@);
        } else if j == 9 {
            assert("key_key.drop"@[0] == 'k' && "renderClouds"@[0] == 'r');
            assert(es[9].0 == "key_key.drop"@);
            assert(es[9].0 != "renderClouds"@);
        } else if j == 10 {
            assert("key_key.inventory"@.len() == 17);
            assert(es[10].0 == "key_key.inventory"@);
            assert(es[10].0 != "renderClouds"@);
        } else if j == 11 {
            assert("key_key.chat"@[0] == 'k' && "renderClouds"@[0] == 'r');
            assert(es[11].0 == "key_key.chat"@);
            assert(es[11].0 != "renderClouds"@);
        } else if j == 12 {
            assert("key_key.playerlist"@.len() == 18);
            assert(es[12].0 == "key_key.playerlist"@);
            assert(es[12].0 != "renderClouds"@);
        } else if j == 13 {
            assert("key_key.pickItem"@.len() == 16);
            assert(es[13].0 == "key_key.pickItem"@);
            assert(es[13].0 != "renderClouds"@);
        } else if j == 14 {
            assert("key_key.command"@.len() == 15);
            assert(es[14].0 == "key_key.command"@);
            assert(es[14].0 != "renderClouds"@);
        } else if j == 15 {
            assert("key_key.socialInteractions"@.len() == 26);
            assert(es[15].0 == "key_key.socialInteractions"@);
            assert(es[15].0 != "renderClouds"@);
        } else if j == 16 {
            assert("key_key.screenshot"@.len() == 18);
            assert(es[16].0 == "key_key.screenshot"@);
            assert(es[16].0 != "renderClouds"@);
        } else if j == 17 {
            assert("key_key.togglePerspective"@.len() == 25);
            assert(es[17].0 == "key_key.togglePerspective"@);
            assert(es[17].0 != "renderClouds"@);
        } else if j == 18 {
            assert("key_key.smoothCamera"@.len() == 20);
            assert(es[18].0 == "key_key.smoothCamera"@);
            assert(es[18].0 != "renderClouds"@);
        } else if j == 19 {
            assert("key_key.fullscreen"@.len() == 18);
            assert(es[19].0 == "key_key.fullscreen"@);
            assert(es[19].0 != "renderClouds"@);
        } else if j == 20 {
            assert("key_key.spectatorOutlines"@.len() == 25);
            assert(es[20].0 == "key_key.spectatorOutlines"@);
            assert(es[20].0 != "renderClouds"@);
        } else if j == 21 {
            assert("key_key.swapHands"@.len() == 17);
            assert("key_key.swapOffhand"@.len() == 19);
            assert(es[21].0 != "renderClouds"@);
        } else if j == 22 {
            assert("key_key.saveToolbarActivator"@.len() == 28);
            assert(es[22].0 == "key_key.saveToolbarActivator"@);
            assert(es[22].0 != "renderClouds"@);
        } else if j == 23 {
            assert("key_key.loadToolbarActivator"@.len() == 28);
            assert(es[23].0 == "key_key.loadToolbarActivator"@);
            assert(es[23].0 != "renderClouds"@);
        } else if j == 24 {
            assert("key_key.advancements"@.len() == 20);
            assert(es[24].0 == "key_key.advancements"@);
            assert(es[24].0 != "renderClouds"@);
        } else if j == 25 {
            assert("key_key.hotbar.1"@.len() == 16);
            assert(es[25].0 == "key_key.hotbar.1"@);
            assert(es[25].0 != "renderClouds"@);
        } else if j == 26 {
            assert("key_key.hotbar.2"@.len() == 16);
            assert(es[26].0 == "key_key.hotbar.2"@);
            assert(es[26].0 != "renderClouds"@);
        } else if j == 27 {
            assert("key_key.hotbar.3"@.len() == 16);
            assert(es[27].0 == "key_key.hotbar.3"@);
            assert(es[27].0 != "renderClouds"@);
        } else if j == 28 {
            assert("key_key.hotbar.4"@.len() == 16);
            assert(es[28].0 == "key_key.hotbar.4"@);
            assert(es[28].0 != "renderClouds"@);
        } else if j == 29 {
            assert("key_key.hotbar.5"@.len() == 16);
            assert(es[29].0 == "key_key.hotbar.5"@);
            assert(es[29].0 != "renderClouds"@);
        } else if j == 30 {
            assert("key_key.hotbar.6"@.len() == 16);
            assert(es[30].0 == "key_key.hotbar.6"@);
            assert(es[30].0 != "renderClouds"@);
        } else if j == 31 {
            assert("key_key.hotbar.7"@.len() == 16);
            assert(es[31].0 == "key_key.hotbar.7"@);
            assert(es[31].0 != "renderClouds"@);
        } else if j == 32 {
            assert("key_key.hotbar.8"@.len() == 16);
            assert(es[32].0 == "key_key.hotbar.8"@);
            assert(es[32].0 != "renderClouds"@);
        } else if j == 33 {
            assert("key_key.hotbar.9"@.len() == 16);
            assert(es[33].0 == "key_key.hotbar.9"@);
            assert(es[33].0 != "renderClouds"@);
        } else if j == 34 {
            assert("key_key.boss_mode"@.len() == 17);
            assert(es[34].0 == "key_key.boss_mode"@);
            assert(es[34].0 != "renderClouds"@);
        } else if j == 35 {
            assert("key_key.decrease_view"@.len() == 21);
            assert(es[35].0 == "key_key.decrease_view"@);
            assert(es[35].0 != "renderClouds"@);
        } else if j == 36 {
            assert("key_key.increase_view"@.len() == 21);
            assert(es[36].0 == "key_key.increase_view"@);
            assert(es[36].0 != "renderClouds"@);
        } else if j == 37 {
            assert("key_key.streamCommercial"@.len() == 24);
            assert(es[37].0 == "key_key.streamCommercial"@);
            assert(es[37].0 != "renderClouds"@);
        } else if j == 38 {
            assert("key_key.streamPauseUnpause"@.len() == 26);
            assert(es[38].0 == "key_key.streamPauseUnpause"@);
            assert(es[38].0 != "renderClouds"@);
        } else if j == 39 {
            assert("key_key.streamStartStop"@.len() == 23);
            assert(es[39].0 == "key_key.streamStartStop"@);
            assert(es[39].0 != "renderClouds"@);
        } else if j == 40 {
            assert("key_key.streamToggleMic"@.len() == 23);
            assert(es[40].0 == "key_key.streamToggleMic"@);
            assert(es[40].0 != "renderClouds"@);
        }
    }
}

proof fn lemma_sound_lack_renderclouds(o: ClientOptions, g: VersionGates)
    ensures
        forall|j: int| 0 <= j < sound_entries(o, g).len() ==> (#[trigger] sound_entries(o, g)[j]).0 != "renderClouds"@,
{
    reveal_strlit("allowBlockAlternatives");
    reveal_strlit("fullscreenResolution");
    reveal_strlit("modelPart_cape");
    reveal_strlit("modelPart_hat");
    reveal_strlit("modelPart_jacket");
    reveal_strlit("modelPart_left_pants_leg");
    reveal_strlit("modelPart_left_sleeve");
    reveal_strlit("modelPart_right_pants_leg");
    reveal_strlit("modelPart_right_sleeve");
    reveal_strlit("renderClouds");
    reveal_strlit("showCape");
    reveal_strlit("sound");
    reveal_strlit("soundCategory_ambient");
    reveal_strlit("soundCategory_animals");
    reveal_strlit("soundCategory_block");
    reveal_strlit("soundCategory_blocks");
    reveal_strlit("soundCategory_hostile");
    reveal_strlit("soundCategory_master");
    reveal_strlit("soundCategory_mobs");
    reveal_strlit("soundCategory_music");
    reveal_strlit("soundCategory_neutral");
    reveal_strlit("soundCategory_player");
    reveal_strlit("soundCategory_players");
    reveal_strlit("soundCategory_record");
    reveal_strlit("soundCategory_records");
    reveal_strlit("soundCategory_voice");
    reveal_strlit("soundCategory_weather");
    let es = sound_entries(o, g);
    assert("renderClouds"@.len() == 12);
    assert(es.len() == 20);
    assert forall|j: int| 0 <= j < es.len() implies (#[trigger] es[j]).0 != "renderClouds"@ by {
        if j == 0 {
            assert("soundCategory_master"@.len() == 20);
            assert(es[0].0 == "soundCategory_master"@);
            assert(es[0].0 != "renderClouds"@);
        } else if j == 1 {
            assert("soundCategory_music"@.len() == 19);
            assert(es[1].0 == "soundCategory_music"@);
            assert(es[1].0 != "renderClouds"@);
        } else if j == 2 {
            assert("soundCategory_records"@.len() == 21);
            assert("soundCategory_record"@.len() == 20);
            assert(es[2].0 != "renderClouds"@);
        } else if j == 3 {
            assert("soundCategory_weather"@.len() == 21);
            assert(es[3].0 == "soundCategory_weather"@);
            assert(es[3].0 != "renderClouds"@);
        } else if j == 4 {
            assert("soundCategory_blocks"@.len() == 20);
            assert("soundCategory_block"@.len() == 19);
            assert(es[4].0 != "renderClouds"@);
        } else if j == 5 {
            assert("soundCategory_mobs"@.len() == 18);
            assert("soundCategory_hostile"@.len() == 21);
            assert(es[5].0 != "renderClouds"@);
        } else if j == 6 {
            assert("soundCategory_animals"@.len() == 21);
            assert("soundCategory_neutral"@.len() == 21);
            assert(es[6].0 != "renderClouds"@);
        } else if j == 7 {
            assert("soundCategory_players"@.len() == 21);
            assert("soundCategory_player"@.len() == 20);
            assert(es[7].0 != "renderClouds"@);
        } else if j == 8 {
            assert("soundCategory_ambient"@.len() == 21);
            assert(es[8].0 == "soundCategory_ambient"@);
            assert(es[8].0 != "renderClouds"@);
        } else if j == 9 {
            assert("soundCategory_voice"@.len() == 19);
            assert(es[9].0 == "soundCategory_voice"@);
            assert(es[9].0 != "renderClouds"@);
        } else if j == 10 {
            assert("sound"@.len() == 5);
            assert(es[10].0 == "sound"@);
            assert(es[10].0 != "renderClouds"@);
        } else if j == 11 {
            assert("showCape"@.len() == 8);
            assert("modelPart_cape"@.len() == 14);
            assert(es[11].0 != "renderClouds"@);
        } else if j == 12 {
            assert("modelPart_jacket"@.len() == 16);
            assert(es[12].0 == "modelPart_jacket"@);
            assert(es[12].0 != "renderClouds"@);
        } else if j == 13 {
            assert("modelPart_left_sleeve"@.len() == 21);
            assert(es[13].0 == "modelPart_left_sleeve"@);
            assert(es[13].0 != "renderClouds"@);
        } else if j == 14 {
            assert("modelPart_right_sleeve"@.len() == 22);
            assert(es[14].0 == "modelPart_right_sleeve"@);
            assert(es[14].0 != "renderClouds"@);
        } else if j == 15 {
            assert("modelPart_left_pants_leg"@.len() == 24);
            assert(es[15].0 == "modelPart_left_pants_leg"@);
            assert(es[15].0 != "renderClouds"@);
        } else if j == 16 {
            assert("modelPart_right_pants_leg"@.len() == 25);
            assert(es[16].0 == "modelPart_right_pants_leg"@);
            assert(es[16].0 != "renderClouds"@);
        } else if j == 17 {
            assert("modelPart_hat"@.len() == 13);
            assert(es[17].0 == "modelPart_hat"@);
            assert(es[17].0 != "renderClouds"@);
        } else if j == 18 {
            assert("allowBlockAlternatives"@.len() == 22);
            assert(es[18].0 == "allowBlockAlternatives"@);
            assert(es[18].0 != "renderClouds"@);
        } else if j == 19 {
            assert("fullscreenResolution"@.len() == 20);
            assert(es[19].0 == "fullscreenResolution"@);
            assert(es[19].0 != "renderClouds"@);
        }
    }
}

proof fn lemma_display_lack_clouds(o: ClientOptions, g: VersionGates)
    ensures
        forall|j: int| 6 <= j < display_entries(o, g).len() ==> (#[trigger] display_entries(o, g)[j]).0 != "clouds"@,
{
    reveal_strlit("advancedItemTooltips");
    reveal_strlit("backgroundForChatOnly");
    reveal_strlit("chatLineSpacing");
    reveal_strlit("chatOpacity");
    reveal_strlit("chatVisibility");
    reveal_strlit("clouds");
    reveal_strlit("heldItemTooltips");
    reveal_strlit("hideServerAddress");
    reveal_strlit("lang");
    reveal_strlit("overrideHeight");
    reveal_strlit("overrideWidth");
    reveal_strlit("pauseOnLostFocus");
    reveal_strlit("resourcePacks");
    reveal_strlit("textBackgroundOpacity");
    let es = display_entries(o, g);
    assert("clouds"@.len() == 6);
    assert(es.len() == 19);
    assert forall|j: int| 6 <= j < es.len() implies (#[trigger] es[j]).0 != "clouds"@ by {
        if j == 6 {
            assert("resourcePacks"@.len() == 13);
            assert(es[6].0 == "resourcePacks"@);
            assert(es[6].0 != "clouds"@);
        } else if j == 7 {
            assert("lang"@.len() == 4);
            assert(es[7].0 == "lang"@);
            assert(es[7].0 != "clouds"@);
        } else if j == 8 {
            assert("chatVisibility"@.len() == 14);
            assert(es[8].0 == "chatVisibility"@);
            assert(es[8].0 != "clouds"@);
        } else if j == 9 {
            assert("chatOpacity"@.len() == 11);
            assert(es[9].0 == "chatOpacity"@);
            assert(es[9].0 != "clouds"@);
        } else if j == 10 {
            assert("chatLineSpacing"@.len() == 15);
            assert(es[10].0 == "chatLineSpacing"@);
            assert(es[10].0 != "clouds"@);
        } else if j == 11 {
            assert("textBackgroundOpacity"@.len() == 21);
            assert(es[11].0 == "textBackgroundOpacity"@);
            assert(es[11].0 != "clouds"@);
        } else if j == 12 {
            assert("backgroundForChatOnly"@.len() == 21);
            assert(es[12].0 == "backgroundForChatOnly"@);
            assert(es[12].0 != "clouds"@);
        } else if j == 13 {
            assert("hideServerAddress"@.len() == 17);
            assert(es[13].0 == "hideServerAddress"@);
            assert(es[13].0 != "clouds"@);
        } else if j == 14 {
            assert("advancedItemTooltips"@.len() == 20);
            assert(es[14].0 == "advancedItemTooltips"@);
            assert(es[14].0 != "clouds"@);
        } else if j == 15 {
            assert("pauseOnLostFocus"@.len() == 16);
            assert(es[15].0 == "pauseOnLostFocus"@);
            assert(es[15].0 != "clouds"@);
        } else if j == 16 {
            assert("overrideWidth"@.len() == 13);
            assert(es[16].0 == "overrideWidth"@);
            assert(es[16].0 != "clouds"@);
        } else if j == 17 {
            assert("overrideHeight"@.len() == 14);
            assert(es[17].0 == "overrideHeight"@);
            assert(es[17].0 != "clouds"@);
        } else if j == 18 {
            assert("heldItemTooltips"@.len() == 16);
            assert(es[18].0 == "heldItemTooltips"@);
            assert(es[18].0 != "clouds"@);
        }
    }
}

proof fn lemma_notice_lack_clouds(o: ClientOptions, g: VersionGates)
    ensures
        forall|j: int| 0 <= j < notice_entries(o, g).len() ==> (#[trigger] notice_entries(o, g)[j]).0 != "clouds"@,
{
    reveal_strlit("allowServerListing");
    reveal_strlit("chatDelay");
    reveal_strlit("chatHeightFocused");
    reveal_strlit("chatHeightUnfocused");
    reveal_strlit("chatScale");
    reveal_strlit("chatWidth");
    reveal_strlit("clouds");
    reveal_strlit("glDebugVerbosity");
    reveal_strlit("hideBundleTutorial");
    reveal_strlit("hideMatchedNames");
    reveal_strlit("joinedFirstServer");
    reveal_strlit("mainHand");
    reveal_strlit("mipmapLevels");
    reveal_strlit("mouseWheelSensitivity");
    reveal_strlit("narrator");
    reveal_strlit("rawMouseInput");
    reveal_strlit("showAutosaveIndicator");
    reveal_strlit("skipMultiplayerWarning");
    reveal_strlit("skipRealms32bitWarning");
    reveal_strlit("snooperEnabled");
    reveal_strlit("syncChunkWrites");
    reveal_strlit("tutorialStep");
    reveal_strlit("useNativeTransport");
    let es = notice_entries(o, g);
    assert("clouds"@.len() == 6);
    assert(es.len() == 22);
    assert forall|j: int| 0 <= j < es.len() implies (#[trigger] es[j]).0 != "clouds"@ by {
        if j == 0 {
            assert("chatHeightFocused"@.len() == 17);
            assert(es[0].0 == "chatHeightFocused"@);
            assert(es[0].0 != "clouds"@);
        } else if j == 1 {
            assert("chatDelay"@.len() == 9);
            assert(es[1].0 == "chatDelay"@);
            assert(es[1].0 != "clouds"@);
        } else if j == 2 {
            assert("chatHeightUnfocused"@.len() == 19);
            assert(es[2].0 == "chatHeightUnfocused"@);
            assert(es[2].0 != "clouds"@);
        } else if j == 3 {
            assert("chatScale"@.len() == 9);
            assert(es[3].0 == "chatScale"@);
            assert(es[3].0 != "clouds"@);
        } else if j == 4 {
            assert("chatWidth"@.len() == 9);
            assert(es[4].0 == "chatWidth"@);
            assert(es[4].0 != "clouds"@);
        } else if j == 5 {
            assert("mipmapLevels"@.len() == 12);
            assert(es[5].0 == "mipmapLevels"@);
            assert(es[5].0 != "clouds"@);
        } else if j == 6 {
            assert("useNativeTransport"@.len() == 18);
            assert(es[6].0 == "useNativeTransport"@);
            assert(es[6].0 != "clouds"@);
        } else if j == 7 {
            assert("mainHand"@.len() == 8);
            assert(es[7].0 == "mainHand"@);
            assert(es[7].0 != "clouds"@);
        } else if j == 8 {
            assert("narrator"@.len() == 8);
            assert(es[8].0 == "narrator"@);
            assert(es[8].0 != "clouds"@);
        } else if j == 9 {
            assert("tutorialStep"@.len() == 12);
            assert(es[9].0 == "tutorialStep"@);
            assert(es[9].0 != "clouds"@);
        } else if j == 10 {
            assert("mouseWheelSensitivity"@.len() == 21);
            assert(es[10].0 == "mouseWheelSensitivity"@);
            assert(es[10].0 != "clouds"@);
        } else if j == 11 {
            assert("rawMouseInput"@.len() == 13);
            assert(es[11].0 == "rawMouseInput"@);
            assert(es[11].0 != "clouds"@);
        } else if j == 12 {
            assert("glDebugVerbosity"@.len() == 16);
            assert(es[12].0 == "glDebugVerbosity"@);
            assert(es[12].0 != "clouds"@);
        } else if j == 13 {
            assert("skipMultiplayerWarning"@.len() == 22);
            assert(es[13].0 == "skipMultiplayerWarning"@);
            assert(es[13].0 != "clouds"@);
        } else if j == 14 {
            assert("skipRealms32bitWarning"@.len() == 22);
            assert(es[14].0 == "skipRealms32bitWarning"@);
            assert(es[14].0 != "clouds"@);
        } else if j == 15 {
            assert("hideMatchedNames"@.len() == 16);
            assert(es[15].0 == "hideMatchedNames"@);
            assert(es[15].0 != "clouds"@);
        } else if j == 16 {
            assert("joinedFirstServer"@.len() == 17);
            assert(es[16].0 == "joinedFirstServer"@);
            assert(es[16].0 != "clouds"@);
        } else if j == 17 {
            assert("hideBundleTutorial"@.len() == 18);
            assert(es[17].0 == "hideBundleTutorial"@);
            assert(es[17].0 != "clouds"@);
        } else if j == 18 {
            assert("syncChunkWrites"@.len() == 15);
            assert(es[18].0 == "syncChunkWrites"@);
            assert(es[18].0 != "clouds"@);
        } else if j == 19 {
            assert("showAutosaveIndicator"@.len() == 21);
            assert(es[19].0 == "showAutosaveIndicator"@);
            assert(es[19].0 != "clouds"@);
        } else if j == 20 {
            assert("allowServerListing"@.len() == 18);
            assert(es[20].0 == "allowServerListing"@);
            assert(es[20].0 != "clouds"@);
        } else if j == 21 {
            assert("snooperEnabled"@.len() == 14);
            assert(es[21].0 == "snooperEnabled"@);
            assert(es[21].0 != "clouds"@);
        }
    }
}

proof fn lemma_stream_lack_clouds(o: ClientOptions, g: VersionGates)
    ensures
        forall|j: int| 0 <= j < stream_entries(o, g).len() ==> (#[trigger] stream_entries(o, g)[j]).0 != "clouds"@,
{
    reveal_strlit("clouds");
    reveal_strlit("streamBytesPerPixel");
    reveal_strlit("streamChatEnabled");
    reveal_strlit("streamChatUserFilter");
    reveal_strlit("streamCompression");
    reveal_strlit("streamFps");
    reveal_strlit("streamKbps");
    reveal_strlit("streamMicToggleBehavior");
    reveal_strlit("streamMicVolume");
    reveal_strlit("streamSendMetadata");
    reveal_strlit("streamSystemVolume");
    let es = stream_entries(o, g);
    assert("clouds"@.len() == 6);
    assert(es.len() == 11);
    assert forall|j: int| 0 <= j < es.len() implies (#[trigger] es[j]).0 != "clouds"@ by {
        if j == 0 {
            assert("streamBytesPerPixel"@.len() == 19);
            assert(es[0].0 == "streamBytesPerPixel"@);
            assert(es[0].0 != "clouds"@);
        } else if j == 1 {
            assert("streamChatEnabled"@.len() == 17);
            assert(es[1].0 == "streamChatEnabled"@);
            assert(es[1].0 != "clouds"@);
        } else if j == 2 {
            assert("streamChatUserFilter"@.len() == 20);
            assert(es[2].0 == "streamChatUserFilter"@);
            assert(es[2].0 != "clouds"@);
        } else if j == 3 {
            assert("streamCompression"@.len() == 17);
            assert(es[3].0 == "streamCompression"@);
            assert(es[3].0 != "clouds"@);
        } else if j == 4 {
            assert("streamFps"@.len() == 9);
            assert(es[4].0 == "streamFps"@);
            assert(es[4].0 != "clouds"@);
        } else if j == 5 {
            assert("streamKbps"@.len() == 10);
            assert(es[5].0 == "streamKbps"@);
            assert(es[5].0 != "clouds"@);
        } else if j == 6 {
            assert("streamMicToggleBehavior"@.len() == 23);
            assert(es[6].0 == "streamMicToggleBehavior"@);
            assert(es[6].0 != "clouds"@);
        } else if j == 7 {
            assert("streamMicVolume"@.len() == 15);
            assert(es[7].0 == "streamMicVolume"@);
            assert(es[7].0 != "clouds"@);
        } else if j == 8 {
            assert("streamKbps"@.len() == 10);
            assert(es[8].0 == "streamKbps"@);
            assert(es[8].0 != "clouds"@);
        } else if j == 9 {
            assert("streamSendMetadata"@.len() == 18);
            assert(es[9].0 == "streamSendMetadata"@);
            assert(es[9].0 != "clouds"@);
        } else if j == 10 {
            assert("streamSystemVolume"@.len() == 18);
            assert(es[10].0 == "streamSystemVolume"@);
            assert(es[10].0 != "clouds"@);
        }
    }
}

proof fn lemma_key_lack_clouds(o: ClientOptions, g: VersionGates)
    ensures
        forall|j: int| 0 <= j < key_entries(o, g).len() ==> (#[trigger] key_entries(o, g)[j]).0 != "clouds"@,
{
    reveal_strlit("clouds");
    reveal_strlit("key_key.advancements");
    reveal_strlit("key_key.attack");
    reveal_strlit("key_key.back");
    reveal_strlit("key_key.boss_mode");
    reveal_strlit("key_key.chat");
    reveal_strlit("key_key.command");
    reveal_strlit("key_key.decrease_view");
    reveal_strlit("key_key.drop");
    reveal_strlit("key_key.forward");
    reveal_strlit("key_key.fullscreen");
    reveal_strlit("key_key.hotbar.1");
    reveal_strlit("key_key.hotbar.2");
    reveal_strlit("key_key.hotbar.3");
    reveal_strlit("key_key.hotbar.4");
    reveal_strlit("key_key.hotbar.5");
    reveal_strlit("key_key.hotbar.6");
    reveal_strlit("key_key.hotbar.7");
    reveal_strlit("key_key.hotbar.8");
    reveal_strlit("key_key.hotbar.9");
    reveal_strlit("key_key.increase_view");
    reveal_strlit("key_key.inventory");
    reveal_strlit("key_key.jump");
    reveal_strlit("key_key.left");
    reveal_strlit("key_key.loadToolbarActivator");
    reveal_strlit("key_key.pickItem");
    reveal_strlit("key_key.playerlist");
    reveal_strlit("key_key.right");
    reveal_strlit("key_key.saveToolbarActivator");
    reveal_strlit("key_key.screenshot");
    reveal_strlit("key_key.smoothCamera");
    reveal_strlit("key_key.sneak");
    reveal_strlit("key_key.socialInteractions");
    reveal_strlit("key_key.spectatorOutlines");
    reveal_strlit("key_key.sprint");
    reveal_strlit("key_key.streamCommercial");
    reveal_strlit("key_key.streamPauseUnpause");
    reveal_strlit("key_key.streamStartStop");
    reveal_strlit("key_key.streamToggleMic");
    reveal_strlit("key_key.swapHands");
    reveal_strlit("key_key.swapOffhand");
    reveal_strlit("key_key.togglePerspective");
    reveal_strlit("key_key.use");
    let es = key_entries(o, g);
    assert("clouds"@.len() == 6);
    assert(es.len() == 41);
    assert forall|j: int| 0 <= j < es.len() implies (#[trigger] es[j]).0 != "clouds"@ by {
        if j == 0 {
            assert("key_key.attack"@.len() == 14);
            assert(es[0].0 == "key_key.attack"@);
            assert(es[0].0 != "clouds"@);
        } else if j == 1 {
            assert("key_key.use"@.len() == 11);
            assert(es[1].0 == "key_key.use"@);
            assert(es[1].0 != "clouds"@);
        } else if j == 2 {
            assert("key_key.forward"@.len() == 15);
            assert(es[2].0 == "key_key.forward"@);
            assert(es[2].0 != "clouds"@);
        } else if j == 3 {
            assert("key_key.left"@.len() == 12);
            assert(es[3].0 == "key_key.left"@);
            assert(es[3].0 != "clouds"@);
        } else if j == 4 {
            assert("key_key.back"@.len() == 12);
            assert(es[4].0 == "key_key.back"@);
            assert(es[4].0 != "clouds"@);
        } else if j == 5 {
            assert("key_key.right"@.len() == 13);
            assert(es[5].0 == "key_key.right"@);
            assert(es[5].0 != "clouds"@);
        } else if j == 6 {
            assert("key_key.jump"@.len() == 12);
            assert(es[6].0 == "key_key.jump"@);
            assert(es[6].0 != "clouds"@);
        } else if j == 7 {
            assert("key_key.sneak"@.len() == 13);
            assert(es[7].0 == "key_key.sneak"@);
            assert(es[7].0 != "clouds"@);
        } else if j == 8 {
            assert("key_key.sprint"@.len() == 14);
            assert(es[8].0 == "key_key.sprint"@);
            assert(es[8].0 != "clouds"@);
        } else if j == 9 {
            assert("key_key.drop"@.len() == 12);
            assert(es[9].0 == "key_key.drop"@);
            assert(es[9].0 != "clouds"@);
        } else if j == 10 {
            assert("key_key.inventory"@.len() == 17);
            assert(es[10].0 == "key_key.inventory"@);
            assert(es[10].0 != "clouds"@);
        } else if j == 11 {
            assert("key_key.chat"@.len() == 12);
            assert(es[11].0 == "key_key.chat"@);
            assert(es[11].0 != "clouds"@);
        } else if j == 12 {
            assert("key_key.playerlist"@.len() == 18);
            assert(es[12].0 == "key_key.playerlist"@);
            assert(es[12].0 != "clouds"@);
        } else if j == 13 {
            assert("key_key.pickItem"@.len() == 16);
            assert(es[13].0 == "key_key.pickItem"@);
            assert(es[13].0 != "clouds"@);
        } else if j == 14 {
            assert("key_key.command"@.len() == 15);
            assert(es[14].0 == "key_key.command"@);
            assert(es[14].0 != "clouds"@);
        } else if j == 15 {
            assert("key_key.socialInteractions"@.len() == 26);
            assert(es[15].0 == "key_key.socialInteractions"@);
            assert(es[15].0 != "clouds"@);
        } else if j == 16 {
            assert("key_key.screenshot"@.len() == 18);
            assert(es[16].0 == "key_key.screenshot"@);
            assert(es[16].0 != "clouds"@);
        } else if j == 17 {
            assert("key_key.togglePerspective"@.len() == 25);
            assert(es[17].0 == "key_key.togglePerspective"@);
            assert(es[17].0 != "clouds"@);
        } else if j == 18 {
            assert("key_key.smoothCamera"@.len() == 20);
            assert(es[18].0 == "key_key.smoothCamera"@);
            assert(es[18].0 != "clouds"@);
        } else if j == 19 {
            assert("key_key.fullscreen"@.len() == 18);
            assert(es[19].0 == "key_key.fullscreen"@);
            assert(es[19].0 != "clouds"@);
        } else if j == 20 {
            assert("key_key.spectatorOutlines"@.len() == 25);
            assert(es[20].0 == "key_key.spectatorOutlines"@);
            assert(es[20].0 != "clouds"@);
        } else if j == 21 {
            assert("key_key.swapHands"@.len() == 17);
            assert("key_key.swapOffhand"@.len() == 19);
            assert(es[21].0 != "clouds"@);
        } else if j == 22 {
            assert("key_key.saveToolbarActivator"@.len() == 28);
            assert(es[22].0 == "key_key.saveToolbarActivator"@);
            assert(es[22].0 != "clouds"@);
        } else if j == 23 {
            assert("key_key.loadToolbarActivator"@.len() == 28);
            assert(es[23].0 == "key_key.loadToolbarActivator"@);
            assert(es[23].0 != "clouds"@);
        } else if j == 24 {
            assert("key_key.advancements"@.len() == 20);
            assert(es[24].0 == "key_key.advancements"@);
            assert(es[24].0 != "clouds"@);
        } else if j == 25 {
            assert("key_key.hotbar.1"@.len() == 16);
            assert(es[25].0 == "key_key.hotbar.1"@);
            assert(es[25].0 != "clouds"@);
        } else if j == 26 {
            assert("key_key.hotbar.2"@.len() == 16);
            assert(es[26].0 == "key_key.hotbar.2"@);
            assert(es[26].0 != "clouds"@);
        } else if j == 27 {
            assert("key_key.hotbar.3"@.len() == 16);
            assert(es[27].0 == "key_key.hotbar.3"@);
            assert(es[27].0 != "clouds"@);
        } else if j == 28 {
            assert("key_key.hotbar.4"@.len() == 16);
            assert(es[28].0 == "key_key.hotbar.4"@);
            assert(es[28].0 != "clouds"@);
        } else if j == 29 {
            assert("key_key.hotbar.5"@.len() == 16);
            assert(es[29].0 == "key_key.hotbar.5"@);
            assert(es[29].0 != "clouds"@);
        } else if j == 30 {
            assert("key_key.hotbar.6"@.len() == 16);
            assert(es[30].0 == "key_key.hotbar.6"@);
            assert(es[30].0 != "clouds"@);
        } else if j == 31 {
            assert("key_key.hotbar.7"@.len() == 16);
            assert(es[31].0 == "key_key.hotbar.7"@);
            assert(es[31].0 != "clouds"@);
        } else if j == 32 {
            assert("key_key.hotbar.8"@.len() == 16);
            assert(es[32].0 == "key_key.hotbar.8"@);
            assert(es[32].0 != "clouds"@);
        } else if j == 33 {
            assert("key_key.hotbar.9"@.len() == 16);
            assert(es[33].0 == "key_key.hotbar.9"@);
            assert(es[33].0 != "clouds"@);
        } else if j == 34 {
            assert("key_key.boss_mode"@.len() == 17);
            assert(es[34].0 == "key_key.boss_mode"@);
            assert(es[34].0 != "clouds"@);
        } else if j == 35 {
            assert("key_key.decrease_view"@.len() == 21);
            assert(es[35].0 == "key_key.decrease_view"@);
            assert(es[35].0 != "clouds"@);
        } else if j == 36 {
            assert("key_key.increase_view"@.len() == 21);
            assert(es[36].0 == "key_key.increase_view"@);
            assert(es[36].0 != "clouds"@);
        } else if j == 37 {
            assert("key_key.streamCommercial"@.len() == 24);
            assert(es[37].0 == "key_key.streamCommercial"@);
            assert(es[37].0 != "clouds"@);
        } else if j == 38 {
            assert("key_key.streamPauseUnpause"@.len() == 26);
            assert(es[38].0 == "key_key.streamPauseUnpause"@);
            assert(es[38].0 != "clouds"@);
        } else if j == 39 {
            assert("key_key.streamStartStop"@.len() == 23);
            assert(es[39].0 == "key_key.streamStartStop"@);
            assert(es[39].0 != "clouds"@);
        } else if j == 40 {
            assert("key_key.streamToggleMic"@.len() == 23);
            assert(es[40].0 == "key_key.streamToggleMic"@);
            assert(es[40].0 != "clouds"@);
        }
    }
}

proof fn lemma_sound_lack_clouds(o: ClientOptions, g: VersionGates)
    ensures
        forall|j: int| 0 <= j < sound_entries(o, g).len() ==> (#[trigger] sound_entries(o, g)[j]).0 != "clouds"@,
{
    reveal_strlit("allowBlockAlternatives");
    reveal_strlit("clouds");
    reveal_strlit("fullscreenResolution");
    reveal_strlit("modelPart_cape");
    reveal_strlit("modelPart_hat");
    reveal_strlit("modelPart_jacket");
    reveal_strlit("modelPart_left_pants_leg");
    reveal_strlit("modelPart_left_sleeve");
    reveal_strlit("modelPart_right_pants_leg");
    reveal_strlit("modelPart_right_sleeve");
    reveal_strlit("showCape");
    reveal_strlit("sound");
    reveal_strlit("soundCategory_ambient");
    reveal_strlit("soundCategory_animals");
    reveal_strlit("soundCategory_block");
    reveal_strlit("soundCategory_blocks");
    reveal_strlit("soundCategory_hostile");
    reveal_strlit("soundCategory_master");
    reveal_strlit("soundCategory_mobs");
    reveal_strlit("soundCategory_music");
    reveal_strlit("soundCategory_neutral");
    reveal_strlit("soundCategory_player");
    reveal_strlit("soundCategory_players");
    reveal_strlit("soundCategory_record");
    reveal_strlit("soundCategory_records");
    reveal_strlit("soundCategory_voice");
    reveal_strlit("soundCategory_weather");
    let es = sound_entries(o, g);
    assert("clouds"@.len() == 6);
    assert(es.len() == 20);
    assert forall|j: int| 0 <= j < es.len() implies (#[trigger] es[j]).0 != "clouds"@ by {
        if j == 0 {
            assert("soundCategory_master"@.len() == 20);
            assert(es[0].0 == "soundCategory_master"@);
            assert(es[0].0 != "clouds"@);
        } else if j == 1 {
            assert("soundCategory_music"@.len() == 19);
            assert(es[1].0 == "soundCategory_music"@);
            assert(es[1].0 != "clouds"@);
        } else if j == 2 {
            assert("soundCategory_records"@.len() == 21);
            assert("soundCategory_record"@.len() == 20);
            assert(es[2].0 != "clouds"@);
        } else if j == 3 {
            assert("soundCategory_weather"@.len() == 21);
            assert(es[3].0 == "soundCategory_weather"@);
            assert(es[3].0 != "clouds"@);
        } else if j == 4 {
            assert("soundCategory_blocks"@.len() == 20);
            assert("soundCategory_block"@.len() == 19);
            assert(es[4].0 != "clouds"@);
        } else if j == 5 {
            assert("soundCategory_mobs"@.len() == 18);
            assert("soundCategory_hostile"@.len() == 21);
            assert(es[5].0 != "clouds"@);
        } else if j == 6 {
            assert("soundCategory_animals"@.len() == 21);
            assert("soundCategory_neutral"@.len() == 21);
            assert(es[6].0 != "clouds"@);
        } else if j == 7 {
            assert("soundCategory_players"@.len() == 21);
            assert("soundCategory_player"@.len() == 20);
            assert(es[7].0 != "clouds"@);
        } else if j == 8 {
            assert("soundCategory_ambient"@.len() == 21);
            assert(es[8].0 == "soundCategory_ambient"@);
            assert(es[8].0 != "clouds"@);
        } else if j == 9 {
            assert("soundCategory_voice"@.len() == 19);
            assert(es[9].0 == "soundCategory_voice"@);
            assert(es[9].0 != "clouds"@);
        } else if j == 10 {
            assert("sound"@.len() == 5);
            assert(es[10].0 == "sound"@);
            assert(es[10].0 != "clouds"@);
        } else if j == 11 {
            assert("showCape"@.len() == 8);
            assert("modelPart_cape"@.len() == 14);
            assert(es[11].0 != "clouds"@);
        } else if j == 12 {
            assert("modelPart_jacket"@.len() == 16);
            assert(es[12].0 == "modelPart_jacket"@);
            assert(es[12].0 != "clouds"@);
        } else if j == 13 {
            assert("modelPart_left_sleeve"@.len() == 21);
            assert(es[13].0 == "modelPart_left_sleeve"@);
            assert(es[13].0 != "clouds"@);
        } else if j == 14 {
            assert("modelPart_right_sleeve"@.len() == 22);
            assert(es[14].0 == "modelPart_right_sleeve"@);
            assert(es[14].0 != "clouds"@);
        } else if j == 15 {
            assert("modelPart_left_pants_leg"@.len() == 24);
            assert(es[15].0 == "modelPart_left_pants_leg"@);
            assert(es[15].0 != "clouds"@);
        } else if j == 16 {
            assert("modelPart_right_pants_leg"@.len() == 25);
            assert(es[16].0 == "modelPart_right_pants_leg"@);
            assert(es[16].0 != "clouds"@);
        } else if j == 17 {
            assert("modelPart_hat"@.len() == 13);
            assert(es[17].0 == "modelPart_hat"@);
            assert(es[17].0 != "clouds"@);
        } else if j == 18 {
            assert("allowBlockAlternatives"@.len() == 22);
            assert(es[18].0 == "allowBlockAlternatives"@);
            assert(es[18].0 != "clouds"@);
        } else if j == 19 {
            assert("fullscreenResolution"@.len() == 20);
            assert(es[19].0 == "fullscreenResolution"@);
            assert(es[19].0 != "clouds"@);
        }
    }
}

/// The data version of the game is written under `version` as its decimal text, unless a
/// custom key sets it.
pub proof fn law_data_version_written(o: ClientOptions, g: VersionGates, v: i32)
    requires
        o.data_version == Some(v),
        !o.custom.map().contains_key("version"@),
    ensures
        spec_create_keys(o, g).contains_key("version"@),
        spec_create_keys(o, g)["version"@] == int_decimal(v as int),
{
    let k = "version"@;
    lemma_general_lack_version(o, g);
    lemma_display_lack_version(o, g);
    lemma_notice_lack_version(o, g);
    lemma_stream_lack_version(o, g);
    lemma_key_lack_version(o, g);
    lemma_sound_lack_version(o, g);
    let m0 = apply_entries(Map::<Seq<char>, Seq<char>>::empty(), general_entries(o, g));
    assert(general_entries(o, g)[0].0 == k);
    law_last_entry_wins(Map::<Seq<char>, Seq<char>>::empty(), general_entries(o, g), 0);
    let m1 = apply_entries(m0, display_entries(o, g));
    law_unwritten_key_kept(m0, display_entries(o, g), k);
    let m2 = apply_entries(m1, notice_entries(o, g));
    law_unwritten_key_kept(m1, notice_entries(o, g), k);
    let m3 = apply_entries(m2, stream_entries(o, g));
    law_unwritten_key_kept(m2, stream_entries(o, g), k);
    let m4 = apply_entries(m3, key_entries(o, g));
    law_unwritten_key_kept(m3, key_entries(o, g), k);
    let m5 = apply_entries(m4, sound_entries(o, g));
    law_unwritten_key_kept(m4, sound_entries(o, g), k);
    assert(spec_create_keys(o, g) == m5.union_prefer_right(texts(o.custom.map())));
    assert(!texts(o.custom.map()).contains_key(k));
}

/// A key binding is written with the numeric key code before 1.13 and with the key name
/// from 1.13 on, unless a custom key sets it; so for the attack binding.
pub proof fn law_key_binding_code_by_version(o: ClientOptions, g: VersionGates, c: KeyCode)
    requires
        o.control.keys.attack == Some(c),
        !o.custom.map().contains_key("key_key.attack"@),
    ensures
        spec_create_keys(o, g).contains_key("key_key.attack"@),
        g.before_1_13 ==> spec_create_keys(o, g)["key_key.attack"@] == c.legacy@,
        !g.before_1_13 ==> spec_create_keys(o, g)["key_key.attack"@] == c.modern@,
{
    let k = "key_key.attack"@;
    lemma_key_lack_key_key_attack(o, g);
    lemma_sound_lack_key_key_attack(o, g);
    let m0 = apply_entries(Map::<Seq<char>, Seq<char>>::empty(), general_entries(o, g));
    let m1 = apply_entries(m0, display_entries(o, g));
    let m2 = apply_entries(m1, notice_entries(o, g));
    let m3 = apply_entries(m2, stream_entries(o, g));
    let m4 = apply_entries(m3, key_entries(o, g));
    assert(key_entries(o, g)[0].0 == k);
    law_last_entry_wins(m3, key_entries(o, g), 0);
    let m5 = apply_entries(m4, sound_entries(o, g));
    law_unwritten_key_kept(m4, sound_entries(o, g), k);
    assert(spec_create_keys(o, g) == m5.union_prefer_right(texts(o.custom.map())));
    assert(!texts(o.custom.map()).contains_key(k));
}

/// From 14w25a on, a set cloud mode is written under `renderClouds`, unless a custom key
/// sets it: "true" for fancy clouds, "fast" for fast ones and "false" for none.
pub proof fn law_render_clouds_text(o: ClientOptions, g: VersionGates, m: CloudRenderMode)
    requires
        g.after_14w25a,
        o.video.clouds == Some(m),
        !o.custom.map().contains_key("renderClouds"@),
    ensures
        spec_create_keys(o, g).contains_key("renderClouds"@),
        m is Fancy ==> spec_create_keys(o, g)["renderClouds"@] == seq!['t', 'r', 'u', 'e'],
        m is Fast ==> spec_create_keys(o, g)["renderClouds"@] == seq!['f', 'a', 's', 't'],
        m is Off ==> spec_create_keys(o, g)["renderClouds"@] == seq!['f', 'a', 'l', 's', 'e'],
{
    let k = "renderClouds"@;
    lemma_display_lack_renderclouds(o, g);
    lemma_notice_lack_renderclouds(o, g);
    lemma_stream_lack_renderclouds(o, g);
    lemma_key_lack_renderclouds(o, g);
    lemma_sound_lack_renderclouds(o, g);
    let m0 = apply_entries(Map::<Seq<char>, Seq<char>>::empty(), general_entries(o, g));
    let m1 = apply_entries(m0, display_entries(o, g));
    assert(display_entries(o, g)[4].0 == k);
    law_last_entry_wins(m0, display_entries(o, g), 4);
    let m2 = apply_entries(m1, notice_entries(o, g));
    law_unwritten_key_kept(m1, notice_entries(o, g), k);
    let m3 = apply_entries(m2, stream_entries(o, g));
    law_unwritten_key_kept(m2, stream_entries(o, g), k);
    let m4 = apply_entries(m3, key_entries(o, g));
    law_unwritten_key_kept(m3, key_entries(o, g), k);
    let m5 = apply_entries(m4, sound_entries(o, g));
    law_unwritten_key_kept(m4, sound_entries(o, g), k);
    assert(spec_create_keys(o, g) == m5.union_prefer_right(texts(o.custom.map())));
    assert(!texts(o.custom.map()).contains_key(k));
}

/// Before 14w25a, a set cloud mode is written under `clouds` as whether clouds are shown,
/// unless a custom key sets it: "false" for none and "true" for fancy or fast ones.
pub proof fn law_old_clouds_shown(o: ClientOptions, g: VersionGates, m: CloudRenderMode)
    requires
        !g.after_14w25a,
        o.video.clouds == Some(m),
        !o.custom.map().contains_key("clouds"@),
    ensures
        spec_create_keys(o, g).contains_key("clouds"@),
        m is Off ==> spec_create_keys(o, g)["clouds"@] == seq!['f', 'a', 'l', 's', 'e'],
        !(m is Off) ==> spec_create_keys(o, g)["clouds"@] == seq!['t', 'r', 'u', 'e'],
{
    let k = "clouds"@;
    lemma_display_lack_clouds(o, g);
    lemma_notice_lack_clouds(o, g);
    lemma_stream_lack_clouds(o, g);
    lemma_key_lack_clouds(o, g);
    lemma_sound_lack_clouds(o, g);
    let m0 = apply_entries(Map::<Seq<char>, Seq<char>>::empty(), general_entries(o, g));
    let m1 = apply_entries(m0, display_entries(o, g));
    assert(display_entries(o, g)[5].0 == k);
    law_last_entry_wins(m0, display_entries(o, g), 5);
    let m2 = apply_entries(m1, notice_entries(o, g));
    law_unwritten_key_kept(m1, notice_entries(o, g), k);
    let m3 = apply_entries(m2, stream_entries(o, g));
    law_unwritten_key_kept(m2, stream_entries(o, g), k);
    let m4 = apply_entries(m3, key_entries(o, g));
    law_unwritten_key_kept(m3, key_entries(o, g), k);
    let m5 = apply_entries(m4, sound_entries(o, g));
    law_unwritten_key_kept(m4, sound_entries(o, g), k);
    assert(spec_create_keys(o, g) == m5.union_prefer_right(texts(o.custom.map())));
    assert(!texts(o.custom.map()).contains_key(k));
}

/// The view of entries being built.
pub open spec fn entries_view(es: Seq<(String, Option<String>)>) -> Seq<KeyEntry> {
    es.map_values(|e: (String, Option<String>)| (e.0@, opt_str_view(e.1)))
}

fn push_entry(es: &mut Vec<(String, Option<String>)>, key: &str, value: Option<String>)
    ensures
        entries_view(final(es)@) == entries_view(old(es)@).push((key@, opt_str_view(value))),
{
    let ghost before = es@;
    es.push((owned(key), value));
    proof {
        assert(entries_view(es@) =~= entries_view(before).push((key@, opt_str_view(value))));
    }
}

fn bool_value(v: Option<bool>) -> (r: Option<String>)
    ensures
        opt_str_view(r) == sbool(v),
{
    match v {
        Some(b) => {
            let mut s = String::new();
            if b {
                string_push(&mut s, 't');
                string_push(&mut s, 'r');
                string_push(&mut s, 'u');
                string_push(&mut s, 'e');
            } else {
                string_push(&mut s, 'f');
                string_push(&mut s, 'a');
                string_push(&mut s, 'l');
                string_push(&mut s, 's');
                string_push(&mut s, 'e');
            }
            proof {
                assert(s@ =~= bool_text(b));
            }
            Some(s)
        },
        None => None,
    }
}

fn int_value(v: Option<i64>) -> (r: Option<String>)
    ensures
        opt_str_view(r) == sint(v),
{
    match v {
        Some(n) => Some(i64_to_decimal(n)),
        None => None,
    }
}

fn int32_value(v: Option<i32>) -> (r: Option<String>)
    ensures
        opt_str_view(r) == sint32(v),
{
    match v {
        Some(n) => Some(i64_to_decimal(n as i64)),
        None => None,
    }
}

fn text_value(v: &Option<String>) -> (r: Option<String>)
    ensures
        opt_str_view(r) == opt_str_view(*v),
{
    match v {
        Some(s) => Some(s.clone()),
        None => None,
    }
}

fn only(g: bool, v: Option<String>) -> (r: Option<String>)
    ensures
        opt_str_view(r) == only_if(g, opt_str_view(v)),
{
    if g {
        v
    } else {
        None
    }
}

fn volume_value(v: &Option<Volume>) -> (r: Option<String>)
    ensures
        opt_str_view(r) == svolume(*v),
{
    match v {
        Some(x) => Some(x.text.clone()),
        None => None,
    }
}

fn key_value(k: &Option<KeyCode>, before_1_13: bool) -> (r: Option<String>)
    ensures
        opt_str_view(r) == skey(*k, before_1_13),
{
    match k {
        Some(c) => Some(if before_1_13 { c.legacy.clone() } else { c.modern.clone() }),
        None => None,
    }
}

#[verifier::spinoff_prover]
#[verifier::rlimit(40)]
fn general_keys(o: &ClientOptions, g: &VersionGates) -> (r: Vec<(String, Option<String>)>)
    ensures
        entries_view(r@) == general_entries(*o, *g),
{
    let mut es: Vec<(String, Option<String>)> = Vec::new();
    proof {
        assert(entries_view(es@) =~= Seq::<KeyEntry>::empty());
    }
    push_entry(&mut es, "version", int32_value(o.data_version));
    push_entry(&mut es, "autoJump", bool_value(o.control.auto_jump));
    push_entry(&mut es, "fullscreen", bool_value(o.video.fullscreen));
    push_entry(&mut es, "autoSuggestions", only(g.after_17w47a, bool_value(o.chat.auto_command_suggestions)));
    push_entry(&mut es, "chatColors", bool_value(o.chat.enable_colors));
    push_entry(&mut es, "chatLinks", bool_value(o.chat.enable_links));
    push_entry(&mut es, "chatLinksPrompt", bool_value(o.chat.prompt_links));
    push_entry(&mut es, "enableVsync", bool_value(o.video.vsync));
    push_entry(&mut es, "entityShadows", bool_value(o.video.entity_shadows));
    push_entry(&mut es, "forceUnicodeFont", bool_value(o.chat.force_unicode));
    push_entry(&mut es, "discrete_mouse_scroll", bool_value(o.control.discrete_mouse_scroll));
    push_entry(&mut es, "invertYMouse", bool_value(o.control.invert_mouse_y));
    push_entry(&mut es, "realmsNotifications", bool_value(o.realms_notifications));
    push_entry(&mut es, "reducedDebugInfo", bool_value(o.reduced_debug_info));
    push_entry(&mut es, "showSubtitles", bool_value(o.sound.show_subtitles));
    push_entry(&mut es, "directionalAudio", only(g.after_22w11a, bool_value(o.sound.directional_audio)));
    push_entry(&mut es, "touchscreen", bool_value(o.control.enable_touchscreen));
    push_entry(&mut es, "bobView", bool_value(o.video.view_bobbing));
    push_entry(&mut es, "toggleCrouch", bool_value(o.control.toggle_crouch));
    push_entry(&mut es, "toggleSprint", bool_value(o.control.toggle_sprint));
    push_entry(&mut es, "darkMojangStudiosBackground", only(g.after_21w13a, bool_value(o.video.dark_mojang_background)));
    push_entry(&mut es, "hideLightningFlashes", only(g.after_21w37a, bool_value(o.video.hide_lightning_flashes)));
    push_entry(&mut es, "prioritizeChunkUpdates", only(g.after_21w37a, int_value(o.video.chunk_updates_mode)));
    push_entry(&mut es, "soundDevice", only(g.after_21w37a, text_value(&o.sound.device)));
    push_entry(&mut es, "mouseSensitivity", text_value(&o.control.mouse_sensitivity));
    push_entry(&mut es, "fov", text_value(&o.video.fov));
    push_entry(&mut es, "screenEffectScale", text_value(&o.video.screen_effect_scale));
    push_entry(&mut es, "fovEffectScale", text_value(&o.video.fov_effect_scale));
    push_entry(&mut es, "darknessEffectScale", only(g.after_22w15a, text_value(&o.video.darkness_effect_scale)));
    push_entry(&mut es, "gamma", text_value(&o.video.brightness));
    push_entry(&mut es, "renderDistance", int_value(o.video.render_distance));
    push_entry(&mut es, "simulationDistance", only(g.after_21w38a, int_value(o.video.simulation_distance)));
    push_entry(&mut es, "entityDistanceScaling", text_value(&o.video.entity_distance_scaling));
    push_entry(&mut es, "guiScale", int_value(o.video.gui_scale));
    push_entry(&mut es, "particles", int_value(o.video.particles));
    push_entry(&mut es, "maxFps", int_value(o.video.max_fps));
    push_entry(&mut es, "difficulty", int_value(o.difficulty));
    proof {
        assert(entries_view(es@) =~= general_entries(*o, *g));
    }
    es
}

#[verifier::spinoff_prover]
#[verifier::rlimit(40)]
fn display_keys(o: &ClientOptions, g: &VersionGates) -> (r: Vec<(String, Option<String>)>)
    ensures
        entries_view(r@) == display_entries(*o, *g),
{
    let mut es: Vec<(String, Option<String>)> = Vec::new();
    proof {
        assert(entries_view(es@) =~= Seq::<KeyEntry>::empty());
    }
    push_entry(&mut es, "fancyGraphics", only(g.before_20w27a, fancy_value(&o.video.graphics_mode)));
    push_entry(&mut es, "graphicsMode", only(!g.before_20w27a, graphics_number_value(&o.video.graphics_mode)));
    push_entry(&mut es, "ao", bool_value(o.video.smooth_lighting));
    push_entry(&mut es, "biomeBlendRadius", only(g.after_18w15a, int_value(o.video.biome_blend)));
    push_entry(&mut es, "renderClouds", only(g.after_14w25a, cloud_value(&o.video.clouds)));
    push_entry(&mut es, "clouds", only(!g.after_14w25a, clouds_shown_value(&o.video.clouds)));
    push_entry(&mut es, "resourcePacks", packs_value(&o.resource_packs));
    push_entry(&mut es, "lang", text_value(&o.language));
    push_entry(&mut es, "chatVisibility", int_value(o.chat.visibility));
    push_entry(&mut es, "chatOpacity", text_value(&o.chat.opacity));
    push_entry(&mut es, "chatLineSpacing", text_value(&o.chat.line_spacing));
    push_entry(&mut es, "textBackgroundOpacity", text_value(&o.chat.background_opacity));
    push_entry(&mut es, "backgroundForChatOnly", bool_value(o.chat.background_for_chat_only));
    push_entry(&mut es, "hideServerAddress", bool_value(o.hide_server_address));
    push_entry(&mut es, "advancedItemTooltips", bool_value(o.advanced_item_tooltips));
    push_entry(&mut es, "pauseOnLostFocus", bool_value(o.pause_on_lost_focus));
    push_entry(&mut es, "overrideWidth", int_value(o.video.window_width));
    push_entry(&mut es, "overrideHeight", int_value(o.video.window_height));
    push_entry(&mut es, "heldItemTooltips", only(g.after_12w50a && g.before_1_19_4, bool_value(o.held_item_tooltips)));
    proof {
        assert(entries_view(es@) =~= display_entries(*o, *g));
    }
    es
}

#[verifier::spinoff_prover]
#[verifier::rlimit(40)]
fn notice_keys(o: &ClientOptions, g: &VersionGates) -> (r: Vec<(String, Option<String>)>)
    ensures
        entries_view(r@) == notice_entries(*o, *g),
{
    let mut es: Vec<(String, Option<String>)> = Vec::new();
    proof {
        assert(entries_view(es@) =~= Seq::<KeyEntry>::empty());
    }
    push_entry(&mut es, "chatHeightFocused", text_value(&o.chat.focused_height));
    push_entry(&mut es, "chatDelay", text_value(&o.chat.delay));
    push_entry(&mut es, "chatHeightUnfocused", text_value(&o.chat.unfocused_height));
    push_entry(&mut es, "chatScale", text_value(&o.chat.scale));
    push_entry(&mut es, "chatWidth", text_value(&o.chat.width));
    push_entry(&mut es, "mipmapLevels", int_value(o.video.mipmap_levels));
    push_entry(&mut es, "useNativeTransport", bool_value(o.use_native_transport));
    push_entry(&mut es, "mainHand", text_value(&o.main_hand));
    push_entry(&mut es, "narrator", only(g.after_17w06a, int_value(o.chat.narrator_mode)));
    push_entry(&mut es, "tutorialStep", only(g.after_17w06a, text_value(&o.tutorial_step)));
    push_entry(&mut es, "mouseWheelSensitivity", only(g.after_18w21a, text_value(&o.control.mouse_wheel_sensitivity)));
    push_entry(&mut es, "rawMouseInput", bool_value(o.control.raw_mouse_input));
    push_entry(&mut es, "glDebugVerbosity", only(g.after_1_13_pre2, int_value(o.log_level)));
    push_entry(&mut es, "skipMultiplayerWarning", only(g.after_1_15_2_pre1, bool_value(o.skip_multiplayer_warning)));
    push_entry(&mut es, "skipRealms32bitWarning", only(g.after_1_18_2_pre1, bool_value(o.skip_realms_32_bit_warning)));
    push_entry(&mut es, "hideMatchedNames", only(g.after_1_16_4_rc1, bool_value(o.hide_matched_names)));
    push_entry(&mut es, "joinedFirstServer", only(g.after_1_16_4_rc1, bool_value(o.joined_server)));
    push_entry(&mut es, "hideBundleTutorial", bool_value(o.hide_bundle_tutorial));
    push_entry(&mut es, "syncChunkWrites", bool_value(o.sync_chunk_writes));
    push_entry(&mut es, "showAutosaveIndicator", only(g.after_21w42a, bool_value(o.show_autosave_indicator)));
    push_entry(&mut es, "allowServerListing", only(g.after_1_18_pre2, bool_value(o.allow_server_listing)));
    push_entry(&mut es, "snooperEnabled", only(g.before_21w43a, bool_value(o.snooper_enabled)));
    proof {
        assert(entries_view(es@) =~= notice_entries(*o, *g));
    }
    es
}

#[verifier::spinoff_prover]
#[verifier::rlimit(40)]
fn stream_keys(o: &ClientOptions, g: &VersionGates) -> (r: Vec<(String, Option<String>)>)
    ensures
        entries_view(r@) == stream_entries(*o, *g),
{
    let streaming_now = g.after_13w47a && g.before_15w31a;
    let mut es: Vec<(String, Option<String>)> = Vec::new();
    proof {
        assert(entries_view(es@) =~= Seq::<KeyEntry>::empty());
    }
    push_entry(&mut es, "streamBytesPerPixel", only(streaming_now, text_value(&o.stream.bytes_per_pixel)));
    push_entry(&mut es, "streamChatEnabled", only(streaming_now, int32_value(o.stream.chat_enabled)));
    push_entry(&mut es, "streamChatUserFilter", only(streaming_now, int32_value(o.stream.chat_filter)));
    push_entry(&mut es, "streamCompression", only(streaming_now, int32_value(o.stream.compression)));
    push_entry(&mut es, "streamFps", only(streaming_now, text_value(&o.stream.fps)));
    push_entry(&mut es, "streamKbps", only(streaming_now, text_value(&o.stream.bitrate)));
    push_entry(&mut es, "streamMicToggleBehavior", only(streaming_now, int32_value(o.stream.microphone_toggle_behavior)));
    push_entry(&mut es, "streamMicVolume", only(streaming_now, text_value(&o.stream.microphone_volume)));
    push_entry(&mut es, "streamKbps", only(streaming_now, text_value(&o.stream.preferred_server)));
    push_entry(&mut es, "streamSendMetadata", only(streaming_now, bool_value(o.stream.send_metadata)));
    push_entry(&mut es, "streamSystemVolume", only(streaming_now, text_value(&o.stream.system_volume)));
    proof {
        assert(entries_view(es@) =~= stream_entries(*o, *g));
    }
    es
}

#[verifier::spinoff_prover]
#[verifier::rlimit(40)]
fn binding_keys(o: &ClientOptions, g: &VersionGates) -> (r: Vec<(String, Option<String>)>)
    ensures
        entries_view(r@) == key_entries(*o, *g),
{
    let streaming_now = g.after_13w47a && g.before_15w31a;
    let mut es: Vec<(String, Option<String>)> = Vec::new();
    proof {
        assert(entries_view(es@) =~= Seq::<KeyEntry>::empty());
    }
    push_entry(&mut es, "key_key.attack", key_value(&o.control.keys.attack, g.before_1_13));
    push_entry(&mut es, "key_key.use", key_value(&o.control.keys.use_item, g.before_1_13));
    push_entry(&mut es, "key_key.forward", key_value(&o.control.keys.forward, g.before_1_13));
    push_entry(&mut es, "key_key.left", key_value(&o.control.keys.left, g.before_1_13));
    push_entry(&mut es, "key_key.back", key_value(&o.control.keys.back, g.before_1_13));
    push_entry(&mut es, "key_key.right", key_value(&o.control.keys.right, g.before_1_13));
    push_entry(&mut es, "key_key.jump", key_value(&o.control.keys.jump, g.before_1_13));
    push_entry(&mut es, "key_key.sneak", key_value(&o.control.keys.sneak, g.before_1_13));
    push_entry(&mut es, "key_key.sprint", key_value(&o.control.keys.sprint, g.before_1_13));
    push_entry(&mut es, "key_key.drop", key_value(&o.control.keys.drop, g.before_1_13));
    push_entry(&mut es, "key_key.inventory", key_value(&o.control.keys.inventory, g.before_1_13));
    push_entry(&mut es, "key_key.chat", key_value(&o.control.keys.chat, g.before_1_13));
    push_entry(&mut es, "key_key.playerlist", key_value(&o.control.keys.playerlist, g.before_1_13));
    push_entry(&mut es, "key_key.pickItem", key_value(&o.control.keys.pick_item, g.before_1_13));
    push_entry(&mut es, "key_key.command", key_value(&o.control.keys.command, g.before_1_13));
    push_entry(&mut es, "key_key.socialInteractions", key_value(&o.control.keys.social_interactions, g.before_1_13));
    push_entry(&mut es, "key_key.screenshot", key_value(&o.control.keys.screenshot, g.before_1_13));
    push_entry(&mut es, "key_key.togglePerspective", key_value(&o.control.keys.toggle_perspective, g.before_1_13));
    push_entry(&mut es, "key_key.smoothCamera", key_value(&o.control.keys.smooth_camera, g.before_1_13));
    push_entry(&mut es, "key_key.fullscreen", key_value(&o.control.keys.fullscreen, g.before_1_13));
    push_entry(&mut es, "key_key.spectatorOutlines", key_value(&o.control.keys.spectator_outlines, g.before_1_13));
    push_entry(&mut es, if g.before_20w27a { "key_key.swapHands" } else { "key_key.swapOffhand" }, key_value(&o.control.keys.swap_offhand, g.before_1_13));
    push_entry(&mut es, "key_key.saveToolbarActivator", only(g.after_17w06a, key_value(&o.control.keys.save_toolbar, g.before_1_13)));
    push_entry(&mut es, "key_key.loadToolbarActivator", only(g.after_17w06a, key_value(&o.control.keys.load_toolbar, g.before_1_13)));
    push_entry(&mut es, "key_key.advancements", only(g.after_17w06a, key_value(&o.control.keys.advancements, g.before_1_13)));
    push_entry(&mut es, "key_key.hotbar.1", key_value(&o.control.keys.hotbar_1, g.before_1_13));
    push_entry(&mut es, "key_key.hotbar.2", key_value(&o.control.keys.hotbar_2, g.before_1_13));
    push_entry(&mut es, "key_key.hotbar.3", key_value(&o.control.keys.hotbar_3, g.before_1_13));
    push_entry(&mut es, "key_key.hotbar.4", key_value(&o.control.keys.hotbar_4, g.before_1_13));
    push_entry(&mut es, "key_key.hotbar.5", key_value(&o.control.keys.hotbar_5, g.before_1_13));
    push_entry(&mut es, "key_key.hotbar.6", key_value(&o.control.keys.hotbar_6, g.before_1_13));
    push_entry(&mut es, "key_key.hotbar.7", key_value(&o.control.keys.hotbar_7, g.before_1_13));
    push_entry(&mut es, "key_key.hotbar.8", key_value(&o.control.keys.hotbar_8, g.before_1_13));
    push_entry(&mut es, "key_key.hotbar.9", key_value(&o.control.keys.hotbar_9, g.before_1_13));
    push_entry(&mut es, "key_key.boss_mode", only(g.is_3d_shareware, key_value(&o.control.keys.boss_mode, g.before_1_13)));
    push_entry(&mut es, "key_key.decrease_view", only(g.is_3d_shareware, key_value(&o.control.keys.decrease_view, g.before_1_13)));
    push_entry(&mut es, "key_key.increase_view", only(g.is_3d_shareware, key_value(&o.control.keys.increase_view, g.before_1_13)));
    push_entry(&mut es, "key_key.streamCommercial", only(streaming_now, key_value(&o.control.keys.stream_commercial, g.before_1_13)));
    push_entry(&mut es, "key_key.streamPauseUnpause", only(streaming_now, key_value(&o.control.keys.stream_pause_unpause, g.before_1_13)));
    push_entry(&mut es, "key_key.streamStartStop", only(streaming_now, key_value(&o.control.keys.stream_start_stop, g.before_1_13)));
    push_entry(&mut es, "key_key.streamToggleMic", only(streaming_now, key_value(&o.control.keys.stream_toggle_microphone, g.before_1_13)));
    proof {
        assert(entries_view(es@) =~= key_entries(*o, *g));
    }
    es
}

#[verifier::spinoff_prover]
#[verifier::rlimit(40)]
fn sound_keys(o: &ClientOptions, g: &VersionGates) -> (r: Vec<(String, Option<String>)>)
    ensures
        entries_view(r@) == sound_entries(*o, *g),
{
    let mut es: Vec<(String, Option<String>)> = Vec::new();
    proof {
        assert(entries_view(es@) =~= Seq::<KeyEntry>::empty());
    }
    push_entry(&mut es, "soundCategory_master", only(g.after_13w36a, volume_value(&o.sound.volume.master)));
    push_entry(&mut es, "soundCategory_music", only(g.after_13w36a, volume_value(&o.sound.volume.music)));
    push_entry(&mut es, if g.before_13w42a { "soundCategory_records" } else { "soundCategory_record" }, only(g.after_13w36a, volume_value(&o.sound.volume.record)));
    push_entry(&mut es, "soundCategory_weather", only(g.after_13w36a, volume_value(&o.sound.volume.weather)));
    push_entry(&mut es, if g.before_13w42a { "soundCategory_blocks" } else { "soundCategory_block" }, only(g.after_13w36a, volume_value(&o.sound.volume.block)));
    push_entry(&mut es, if g.before_13w42a { "soundCategory_mobs" } else { "soundCategory_hostile" }, only(g.after_13w36a, volume_value(&o.sound.volume.hostile)));
    push_entry(&mut es, if g.before_13w42a { "soundCategory_animals" } else { "soundCategory_neutral" }, only(g.after_13w36a, volume_value(&o.sound.volume.neutral)));
    push_entry(&mut es, if g.before_13w42a { "soundCategory_players" } else { "soundCategory_player" }, only(g.after_13w36a, volume_value(&o.sound.volume.player)));
    push_entry(&mut es, "soundCategory_ambient", only(g.after_13w36a, volume_value(&o.sound.volume.ambient)));
    push_entry(&mut es, "soundCategory_voice", only(g.after_13w36a, volume_value(&o.sound.volume.voice)));
    push_entry(&mut es, "sound", only(!g.after_13w36a, above_zero_value(&o.sound.volume.master)));
    push_entry(&mut es, if g.before_14w03a { "showCape" } else { "modelPart_cape" }, bool_value(o.skin.cape));
    push_entry(&mut es, "modelPart_jacket", bool_value(o.skin.jacket));
    push_entry(&mut es, "modelPart_left_sleeve", bool_value(o.skin.left_sleeve));
    push_entry(&mut es, "modelPart_right_sleeve", bool_value(o.skin.right_sleeve));
    push_entry(&mut es, "modelPart_left_pants_leg", bool_value(o.skin.left_pants));
    push_entry(&mut es, "modelPart_right_pants_leg", bool_value(o.skin.right_pants));
    push_entry(&mut es, "modelPart_hat", bool_value(o.skin.hat));
    push_entry(&mut es, "allowBlockAlternatives", only(g.after_14w28a && g.before_15w31a, bool_value(o.video.allow_block_alternatives)));
    push_entry(&mut es, "fullscreenResolution", resolution_value(&o.video.fullscreen_resolution));
    proof {
        assert(entries_view(es@) =~= sound_entries(*o, *g));
    }
    es
}

fn text_of(b: bool) -> (r: String)
    ensures
        r@ == bool_text(b),
{
    match bool_value(Some(b)) {
        Some(s) => s,
        None => {
            proof {
                assert(false);
            }
            String::new()
        },
    }
}

fn fancy_value(m: &Option<GraphicsMode>) -> (r: Option<String>)
    ensures
        opt_str_view(r) == (match *m {
            Some(x) => Some(bool_text(graphics_fancy(x))),
            None => None,
        }),
{
    match m {
        Some(GraphicsMode::Fast) => Some(text_of(false)),
        Some(GraphicsMode::Fancy) => Some(text_of(true)),
        Some(GraphicsMode::Fabulous) => Some(text_of(true)),
        Some(GraphicsMode::Number(n)) => Some(text_of(*n > 0)),
        None => None,
    }
}

fn graphics_number_value(m: &Option<GraphicsMode>) -> (r: Option<String>)
    ensures
        opt_str_view(r) == (match *m {
            Some(x) => Some(int_decimal(graphics_number(x))),
            None => None,
        }),
{
    match m {
        Some(GraphicsMode::Fast) => Some(i64_to_decimal(0)),
        Some(GraphicsMode::Fancy) => Some(i64_to_decimal(1)),
        Some(GraphicsMode::Fabulous) => Some(i64_to_decimal(2)),
        Some(GraphicsMode::Number(n)) => Some(i64_to_decimal(*n as i64)),
        None => None,
    }
}

fn cloud_value(m: &Option<CloudRenderMode>) -> (r: Option<String>)
    ensures
        opt_str_view(r) == (match *m {
            Some(x) => Some(cloud_text(x)),
            None => None,
        }),
{
    match m {
        Some(CloudRenderMode::Fancy) => Some(text_of(true)),
        Some(CloudRenderMode::Fast) => {
            let mut s = String::new();
            string_push(&mut s, 'f');
            string_push(&mut s, 'a');
            string_push(&mut s, 's');
            string_push(&mut s, 't');
            proof {
                assert(s@ =~= seq!['f', 'a', 's', 't']);
            }
            Some(s)
        },
        Some(CloudRenderMode::Off) => Some(text_of(false)),
        None => None,
    }
}

fn clouds_shown_value(m: &Option<CloudRenderMode>) -> (r: Option<String>)
    ensures
        opt_str_view(r) == (match *m {
            Some(x) => Some(bool_text(!(x is Off))),
            None => None,
        }),
{
    match m {
        Some(CloudRenderMode::Off) => Some(text_of(false)),
        Some(_) => Some(text_of(true)),
        None => None,
    }
}

fn packs_value(p: &Option<Vec<String>>) -> (r: Option<String>)
    ensures
        opt_str_view(r) == (match *p {
            Some(v) => Some(seq!['['] + quoted_names(views(v@)) + seq![']']),
            None => None,
        }),
{
    match p {
        Some(v) => Some(write_resource_packs(v.as_slice())),
        None => None,
    }
}

fn above_zero_value(v: &Option<Volume>) -> (r: Option<String>)
    ensures
        opt_str_view(r) == (match *v {
            Some(x) => Some(bool_text(x.above_zero)),
            None => None,
        }),
{
    match v {
        Some(x) => Some(text_of(x.above_zero)),
        None => None,
    }
}

/// Creates the string for fullscreen resolution
pub fn write_fullscreen_resolution(resolution: &FullscreenResolution) -> (r: String)
    ensures
        r@ == resolution_text(*resolution),
{
    let mut out = i64_to_decimal(resolution.width as i64);
    string_push(&mut out, 'x');
    let h = i64_to_decimal(resolution.height as i64);
    string_push_str(&mut out, h.as_str());
    string_push(&mut out, '@');
    let rr = i64_to_decimal(resolution.refresh_rate as i64);
    string_push_str(&mut out, rr.as_str());
    string_push(&mut out, ':');
    let c = i64_to_decimal(resolution.color_bits as i64);
    string_push_str(&mut out, c.as_str());
    proof {
        assert(out@ =~= resolution_text(*resolution));
    }
    out
}

fn resolution_value(r: &Option<FullscreenResolution>) -> (o: Option<String>)
    ensures
        opt_str_view(o) == (match *r {
            Some(x) => Some(resolution_text(x)),
            None => None,
        }),
{
    match r {
        Some(x) => Some(write_fullscreen_resolution(x)),
        None => None,
    }
}

fn write_entries(out: &mut StrMap<String>, es: &Vec<(String, Option<String>)>)
    ensures
        texts(final(out).map()) == apply_entries(texts(old(out).map()), entries_view(es@)),
{
    let ghost start = texts(out.map());
    let mut i: usize = 0;
    proof {
        assert(entries_view(es@).take(0) =~= Seq::<KeyEntry>::empty());
    }
    while i < es.len()
        invariant
            i <= es@.len(),
            texts(out.map()) == apply_entries(start, entries_view(es@).take(i as int)),
        decreases es@.len() - i,
    {
        let ghost before = texts(out.map());
        let ghost part = entries_view(es@).take(i + 1);
        proof {
            assert(part.drop_last() =~= entries_view(es@).take(i as int));
            assert(part.last() == (es@[i as int].0@, opt_str_view(es@[i as int].1)));
        }
        match &es[i].1 {
            Some(v) => {
                out.insert(es[i].0.clone(), v.clone());
                proof {
                    assert(texts(out.map()) =~= before.insert(es@[i as int].0@, v@));
                }
            },
            None => {},
        }
        i = i + 1;
    }
    proof {
        assert(entries_view(es@).take(es@.len() as int) =~= entries_view(es@));
    }
}

/// The keys of options.txt for the client options at the given game version
pub fn create_keys(options: &ClientOptions, gates: &VersionGates) -> (r: StrMap<String>)
    ensures
        texts(r.map()) == spec_create_keys(*options, *gates),
{
    let mut out: StrMap<String> = StrMap::new();
    proof {
        assert(texts(out.map()) =~= Map::<Seq<char>, Seq<char>>::empty());
    }
    let es = general_keys(options, gates);
    write_entries(&mut out, &es);
    let es = display_keys(options, gates);
    write_entries(&mut out, &es);
    let es = notice_keys(options, gates);
    write_entries(&mut out, &es);
    let es = stream_keys(options, gates);
    write_entries(&mut out, &es);
    let es = binding_keys(options, gates);
    write_entries(&mut out, &es);
    let es = sound_keys(options, gates);
    write_entries(&mut out, &es);
    let ghost before = out.map();
    merge_options(&mut out, &options.custom);
    proof {
        assert(texts(out.map()) =~= texts(before).union_prefer_right(texts(options.custom.map())));
    }
    out
}

} // verus!
