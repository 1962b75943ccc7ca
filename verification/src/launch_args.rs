//! Arguments for launching the game client: filling in placeholders and checking the
//! rules of conditional arguments

use vstd::prelude::*;

use crate::instance::{ClientWindowConfig, InstanceKind, QuickPlayType};
use crate::paths::{join_path, spec_join};
use crate::text::{
    contains_str, nat_digits, opt_str_view, owned, replace_all, spec_contains, spec_replace,
    string_push, string_push_str, u64_to_decimal,
};
use crate::user::{User, UserKind};

verus! {

/// Values that argument placeholders are filled from
#[derive(Debug, Clone)]
pub struct ArgParams {
    /// The classpath of the game
    pub classpath: String,
    /// The launcher's internal data directory
    pub internal_dir: String,
    /// The game version
    pub version: String,
    /// The directory the game is launched in
    pub launch_dir: String,
    /// The assets directory
    pub assets_dir: String,
    /// The side of the instance
    pub side: InstanceKind,
    /// What to join when the game starts
    pub quick_play: QuickPlayType,
    /// The user that plays, if one is chosen
    pub user: Option<User>,
    /// The name of the operating system, as client rules name it
    pub os: String,
    /// The name of the architecture, as client rules name it
    pub arch: String,
}

/// The window configuration of a client side.
pub open spec fn client_window(side: InstanceKind) -> ClientWindowConfig {
    match side {
        InstanceKind::Client { window } => window,
        _ => ClientWindowConfig { resolution: None },
    }
}

/// The text that stands for the joined server: `server` or `server:port`.
pub open spec fn spec_server_text(server: Seq<char>, port: Option<u16>) -> Seq<char> {
    match port {
        Some(p) => server + seq![':'] + nat_digits(p as nat),
        None => server,
    }
}

/// The directory that native libraries of a version are kept in.
pub open spec fn spec_natives_dir(internal: Seq<char>, version: Seq<char>) -> Seq<char> {
    spec_join(spec_join(spec_join(internal, "versions"@), version), "natives"@)
}

/// The placeholders that do not depend on the user, filled in order.
pub open spec fn spec_fill_common(arg: Seq<char>, p: ArgParams) -> Seq<char> {
    let o = spec_replace(arg, "${launcher_name}"@, "mcvm"@);
    let o = spec_replace(o, "${launcher_version}"@, "alpha"@);
    let o = spec_replace(o, "${classpath}"@, p.classpath@);
    let o = spec_replace(o, "${natives_directory}"@, spec_natives_dir(p.internal_dir@, p.version@));
    let o = spec_replace(o, "${version_name}"@, p.version@);
    let o = spec_replace(o, "${version_type}"@, "mcvm"@);
    let o = spec_replace(o, "${game_directory}"@, p.launch_dir@);
    let o = spec_replace(o, "${assets_root}"@, p.assets_dir@);
    let o = spec_replace(o, "${assets_index_name}"@, p.version@);
    let o = spec_replace(o, "${game_assets}"@, spec_join(spec_join(p.assets_dir@, "virtual"@), "legacy"@));
    let o = spec_replace(o, "${user_type}"@, "msa"@);
    let o = spec_replace(o, "${clientid}"@, "mcvm"@);
    let o = spec_replace(o, "${user_properties}"@, "\"\""@);
    let o = match client_window(p.side).resolution {
        Some(r) => spec_replace(
            spec_replace(o, "${resolution_width}"@, nat_digits(r.width as nat)),
            "${resolution_height}"@,
            nat_digits(r.height as nat),
        ),
        None => o,
    };
    let o = spec_replace(o, "${quickPlayPath}"@, "quickPlay/log.json"@);
    let o = spec_replace(
        o,
        "${quickPlaySingleplayer}"@,
        match p.quick_play {
            QuickPlayType::World { world } => world@,
            _ => Seq::empty(),
        },
    );
    let o = spec_replace(
        o,
        "${quickPlayMultiplayer}"@,
        match p.quick_play {
            QuickPlayType::Server { server, port } => spec_server_text(server@, port),
            _ => Seq::empty(),
        },
    );
    spec_replace(
        o,
        "${quickPlayRealms}"@,
        match p.quick_play {
            QuickPlayType::Realm { realm } => realm@,
            _ => Seq::empty(),
        },
    )
}

/// The user placeholders filled in, and the whole argument blanked (or named
/// `UnknownUser`) where one of them cannot be filled.
pub open spec fn spec_fill_user(o: Seq<char>, user: Option<User>) -> Seq<char> {
    match user {
        Some(u) => {
            let o = spec_replace(o, "${auth_player_name}"@, u.name@);
            let o = match opt_str_view(u.uuid) {
                Some(id) => spec_replace(o, "${auth_uuid}"@, id),
                None => o,
            };
            let o = match opt_str_view(u.access_token) {
                Some(t) => spec_replace(o, "${auth_access_token}"@, t),
                None => o,
            };
            let o = match u.kind {
                UserKind::Microsoft { xbox_uid: Some(x) } => spec_replace(o, "${auth_xuid}"@, x@),
                _ => o,
            };
            if spec_contains(o, "${auth_player_name}"@) || spec_contains(o, "${auth_access_token}"@)
                || spec_contains(o, "${auth_uuid}"@) {
                Seq::empty()
            } else {
                o
            }
        },
        None => if spec_contains(o, "${auth_player_name}"@) {
            "UnknownUser"@
        } else if spec_contains(o, "${auth_access_token}"@) || spec_contains(o, "${auth_uuid}"@) {
            Seq::empty()
        } else {
            o
        },
    }
}

/// An argument with its placeholders filled in.
pub open spec fn spec_replace_arg_placeholders(arg: Seq<char>, p: ArgParams) -> Seq<char> {
    spec_fill_user(spec_fill_common(arg, p), p.user)
}

proof fn lemma_placeholder_literals()
    ensures
        "${launcher_name}"@.len() > 0,
        "${launcher_version}"@.len() > 0,
        "${classpath}"@.len() > 0,
        "${natives_directory}"@.len() > 0,
        "${version_name}"@.len() > 0,
        "${version_type}"@.len() > 0,
        "${game_directory}"@.len() > 0,
        "${assets_root}"@.len() > 0,
        "${assets_index_name}"@.len() > 0,
        "${game_assets}"@.len() > 0,
        "${user_type}"@.len() > 0,
        "${clientid}"@.len() > 0,
        "${user_properties}"@.len() > 0,
        "${resolution_width}"@.len() > 0,
        "${resolution_height}"@.len() > 0,
        "${quickPlayPath}"@.len() > 0,
        "${quickPlaySingleplayer}"@.len() > 0,
        "${quickPlayMultiplayer}"@.len() > 0,
        "${quickPlayRealms}"@.len() > 0,
        "${auth_player_name}"@.len() > 0,
        "${auth_uuid}"@.len() > 0,
        "${auth_access_token}"@.len() > 0,
        "${auth_xuid}"@.len() > 0,
        "${path}"@.len() > 0,
{
    reveal_strlit("${launcher_name}");
    reveal_strlit("${launcher_version}");
    reveal_strlit("${classpath}");
    reveal_strlit("${natives_directory}");
    reveal_strlit("${version_name}");
    reveal_strlit("${version_type}");
    reveal_strlit("${game_directory}");
    reveal_strlit("${assets_root}");
    reveal_strlit("${assets_index_name}");
    reveal_strlit("${game_assets}");
    reveal_strlit("${user_type}");
    reveal_strlit("${clientid}");
    reveal_strlit("${user_properties}");
    reveal_strlit("${resolution_width}");
    reveal_strlit("${resolution_height}");
    reveal_strlit("${quickPlayPath}");
    reveal_strlit("${quickPlaySingleplayer}");
    reveal_strlit("${quickPlayMultiplayer}");
    reveal_strlit("${quickPlayRealms}");
    reveal_strlit("${auth_player_name}");
    reveal_strlit("${auth_uuid}");
    reveal_strlit("${auth_access_token}");
    reveal_strlit("${auth_xuid}");
    reveal_strlit("${path}");
}

/// No character of the text is a `$`, so no placeholder stands in it.
pub open spec fn no_dollar(s: Seq<char>) -> bool {
    forall|i: int| 0 <= i < s.len() ==> s[i] != '$'
}

proof fn lemma_placeholders_start_with_dollar()
    ensures
        "${launcher_name}"@.len() > 0 && "${launcher_name}"@[0] == '$',
        "${launcher_version}"@.len() > 0 && "${launcher_version}"@[0] == '$',
        "${classpath}"@.len() > 0 && "${classpath}"@[0] == '$',
        "${natives_directory}"@.len() > 0 && "${natives_directory}"@[0] == '$',
        "${version_name}"@.len() > 0 && "${version_name}"@[0] == '$',
        "${version_type}"@.len() > 0 && "${version_type}"@[0] == '$',
        "${game_directory}"@.len() > 0 && "${game_directory}"@[0] == '$',
        "${assets_root}"@.len() > 0 && "${assets_root}"@[0] == '$',
        "${assets_index_name}"@.len() > 0 && "${assets_index_name}"@[0] == '$',
        "${game_assets}"@.len() > 0 && "${game_assets}"@[0] == '$',
        "${user_type}"@.len() > 0 && "${user_type}"@[0] == '$',
        "${clientid}"@.len() > 0 && "${clientid}"@[0] == '$',
        "${user_properties}"@.len() > 0 && "${user_properties}"@[0] == '$',
        "${resolution_width}"@.len() > 0 && "${resolution_width}"@[0] == '$',
        "${resolution_height}"@.len() > 0 && "${resolution_height}"@[0] == '$',
        "${quickPlayPath}"@.len() > 0 && "${quickPlayPath}"@[0] == '$',
        "${quickPlaySingleplayer}"@.len() > 0 && "${quickPlaySingleplayer}"@[0] == '$',
        "${quickPlayMultiplayer}"@.len() > 0 && "${quickPlayMultiplayer}"@[0] == '$',
        "${quickPlayRealms}"@.len() > 0 && "${quickPlayRealms}"@[0] == '$',
        "${auth_player_name}"@.len() > 0 && "${auth_player_name}"@[0] == '$',
        "${auth_uuid}"@.len() > 0 && "${auth_uuid}"@[0] == '$',
        "${auth_access_token}"@.len() > 0 && "${auth_access_token}"@[0] == '$',
        "${auth_xuid}"@.len() > 0 && "${auth_xuid}"@[0] == '$',
{
    reveal_strlit("${launcher_name}");
    reveal_strlit("${launcher_version}");
    reveal_strlit("${classpath}");
    reveal_strlit("${natives_directory}");
    reveal_strlit("${version_name}");
    reveal_strlit("${version_type}");
    reveal_strlit("${game_directory}");
    reveal_strlit("${assets_root}");
    reveal_strlit("${assets_index_name}");
    reveal_strlit("${game_assets}");
    reveal_strlit("${user_type}");
    reveal_strlit("${clientid}");
    reveal_strlit("${user_properties}");
    reveal_strlit("${resolution_width}");
    reveal_strlit("${resolution_height}");
    reveal_strlit("${quickPlayPath}");
    reveal_strlit("${quickPlaySingleplayer}");
    reveal_strlit("${quickPlayMultiplayer}");
    reveal_strlit("${quickPlayRealms}");
    reveal_strlit("${auth_player_name}");
    reveal_strlit("${auth_uuid}");
    reveal_strlit("${auth_access_token}");
    reveal_strlit("${auth_xuid}");
}

/// Replacing a pattern that starts with `$` leaves a text alone where no `$` follows its
/// first character and the pattern does not stand at its start.
proof fn lemma_replace_skips(s: Seq<char>, from: Seq<char>, to: Seq<char>)
    requires
        from.len() > 0,
        from[0] == '$',
        forall|i: int| 1 <= i < s.len() ==> s[i] != '$',
        !(s.len() >= from.len() && s.subrange(0, from.len() as int) == from),
    ensures
        spec_replace(s, from, to) == s,
    decreases s.len(),
{
    if s.len() >= from.len() {
        let t = s.subrange(1, s.len() as int);
        assert forall|i: int| 1 <= i < t.len() implies t[i] != '$' by {
            assert(t[i] == s[i + 1]);
        }
        if t.len() >= from.len() {
            assert(t.subrange(0, from.len() as int)[0] == s[1]);
        }
        lemma_replace_skips(t, from, to);
        assert(seq![s[0]] + t =~= s);
    }
}

/// Text without a `$` in front of the replaced text is kept as it is.
proof fn lemma_replace_after_clean(a: Seq<char>, s: Seq<char>, from: Seq<char>, to: Seq<char>)
    requires
        no_dollar(a),
        from.len() > 0,
        from[0] == '$',
    ensures
        spec_replace(a + s, from, to) == a + spec_replace(s, from, to),
    decreases a.len(),
{
    if a.len() == 0 {
        assert(a + s =~= s);
        assert(a + spec_replace(s, from, to) =~= spec_replace(s, from, to));
    } else {
        let u = a + s;
        if u.len() < from.len() {
            assert(s.len() < from.len());
        } else {
            assert(u.subrange(0, from.len() as int)[0] == a[0]);
            let a1 = a.subrange(1, a.len() as int);
            assert(u.subrange(1, u.len() as int) =~= a1 + s);
            lemma_replace_after_clean(a1, s, from, to);
            assert(seq![a[0]] + (a1 + spec_replace(s, from, to)) =~= a + spec_replace(s, from, to));
        }
    }
}

/// A text without a `$` holds no placeholder.
proof fn lemma_clean_holds_no_placeholder(w: Seq<char>, from: Seq<char>, to: Seq<char>)
    requires
        no_dollar(w),
        from.len() > 0,
        from[0] == '$',
    ensures
        spec_replace(w, from, to) == w,
        !spec_contains(w, from),
{
    if w.len() >= from.len() {
        assert(w.subrange(0, from.len() as int)[0] == w[0]);
    }
    lemma_replace_skips(w, from, to);
    if spec_contains(w, from) {
        let i = choose|i: int| 0 <= i && i + from.len() <= w.len() && #[trigger] w.subrange(i, i + from.len()) == from;
        assert(w.subrange(i, i + from.len())[0] == w[i]);
    }
}

/// The `${game_directory}` placeholder stands for the directory the game is launched in:
/// where it stands between texts without placeholders, the filled argument is those
/// texts around the launch directory.
pub proof fn law_game_directory_is_launch_dir(before: Seq<char>, after: Seq<char>, p: ArgParams)
    requires
        no_dollar(before),
        no_dollar(after),
        no_dollar(p.launch_dir@),
    ensures
        spec_replace_arg_placeholders(before + "${game_directory}"@ + after, p) == before + p.launch_dir@ + after,
{
    lemma_placeholders_start_with_dollar();
    let g = "${game_directory}"@;
    reveal_strlit("${game_directory}");
    reveal_strlit("${launcher_name}");
    reveal_strlit("${launcher_version}");
    reveal_strlit("${classpath}");
    reveal_strlit("${natives_directory}");
    reveal_strlit("${version_name}");
    reveal_strlit("${version_type}");
    let s0 = g + after;
    let arg = before + s0;
    assert(before + g + after =~= arg);
    assert forall|i: int| 1 <= i < s0.len() implies s0[i] != '$' by {
        if i >= g.len() {
            assert(s0[i] == after[i - g.len()]);
        }
    }
    let firsts = seq![
        "${launcher_name}"@,
        "${launcher_version}"@,
        "${classpath}"@,
        "${natives_directory}"@,
        "${version_name}"@,
        "${version_type}"@,
    ];
    assert forall|k: int, to: Seq<char>| 0 <= k < 6 implies #[trigger] spec_replace(arg, firsts[k], to) == arg by {
        let f = firsts[k];
        if s0.len() >= f.len() {
            assert(s0.subrange(0, f.len() as int)[2] == 'g');
            assert(f[2] != 'g');
        }
        lemma_replace_skips(s0, f, to);
        lemma_replace_after_clean(before, s0, f, to);
    }
    let o = spec_replace(arg, "${launcher_name}"@, "mcvm"@);
    assert(spec_replace(arg, firsts[0], "mcvm"@) == arg);
    let o = spec_replace(o, "${launcher_version}"@, "alpha"@);
    assert(spec_replace(arg, firsts[1], "alpha"@) == arg);
    let o = spec_replace(o, "${classpath}"@, p.classpath@);
    assert(spec_replace(arg, firsts[2], p.classpath@) == arg);
    let o = spec_replace(o, "${natives_directory}"@, spec_natives_dir(p.internal_dir@, p.version@));
    assert(spec_replace(arg, firsts[3], spec_natives_dir(p.internal_dir@, p.version@)) == arg);
    let o = spec_replace(o, "${version_name}"@, p.version@);
    assert(spec_replace(arg, firsts[4], p.version@) == arg);
    let o = spec_replace(o, "${version_type}"@, "mcvm"@);
    assert(spec_replace(arg, firsts[5], "mcvm"@) == arg);
    assert(o == arg);
    lemma_replace_after_clean(before, s0, g, p.launch_dir@);
    assert(s0.subrange(0, g.len() as int) =~= g);
    let rest = s0.subrange(g.len() as int, s0.len() as int);
    assert(rest =~= after);
    if after.len() >= g.len() {
        assert(after.subrange(0, g.len() as int)[0] == after[0]);
    }
    lemma_replace_skips(after, g, p.launch_dir@);
    let w = before + p.launch_dir@ + after;
    assert(spec_replace(o, g, p.launch_dir@) =~= w);
    assert(no_dollar(w)) by {
        assert forall|i: int| 0 <= i < w.len() implies w[i] != '$' by {
            if i < before.len() {
                assert(w[i] == before[i]);
            } else if i < before.len() + p.launch_dir@.len() {
                assert(w[i] == p.launch_dir@[i - before.len()]);
            } else {
                assert(w[i] == after[i - before.len() - p.launch_dir@.len()]);
            }
        }
    }
    assert forall|from: Seq<char>, to: Seq<char>| from.len() > 0 && from[0] == '$' implies #[trigger] spec_replace(
        w,
        from,
        to,
    ) == w && !spec_contains(w, from) by {
        lemma_clean_holds_no_placeholder(w, from, to);
    }
    assert(spec_fill_common(arg, p) == w);
    assert(spec_replace_arg_placeholders(before + g + after, p) == w);
}

/// The `${classpath}` placeholder stands for the game's classpath, where it stands between
/// texts without placeholders and the classpath holds none.
pub proof fn law_classpath_placeholder(before: Seq<char>, after: Seq<char>, p: ArgParams)
    requires
        no_dollar(before),
        no_dollar(after),
        no_dollar(p.classpath@),
    ensures
        spec_replace_arg_placeholders(before + "${classpath}"@ + after, p) == before + p.classpath@ + after,
{
    lemma_placeholders_start_with_dollar();
    let g = "${classpath}"@;
    reveal_strlit("${classpath}");
    reveal_strlit("${launcher_name}");
    reveal_strlit("${launcher_version}");
    let s0 = g + after;
    let arg = before + s0;
    assert(before + g + after =~= arg);
    assert forall|i: int| 1 <= i < s0.len() implies s0[i] != '$' by {
        if i >= g.len() {
            assert(s0[i] == after[i - g.len()]);
        }
    }
    assert(spec_replace(arg, "${launcher_name}"@, "mcvm"@) == arg) by {
        if s0.len() >= "${launcher_name}"@.len() {
            assert(s0.subrange(0, "${launcher_name}"@.len() as int)[2] == 'c');
            assert("${launcher_name}"@[2] == 'l');
        }
        lemma_replace_skips(s0, "${launcher_name}"@, "mcvm"@);
        lemma_replace_after_clean(before, s0, "${launcher_name}"@, "mcvm"@);
    }
    assert(spec_replace(arg, "${launcher_version}"@, "alpha"@) == arg) by {
        if s0.len() >= "${launcher_version}"@.len() {
            assert(s0.subrange(0, "${launcher_version}"@.len() as int)[2] == 'c');
            assert("${launcher_version}"@[2] == 'l');
        }
        lemma_replace_skips(s0, "${launcher_version}"@, "alpha"@);
        lemma_replace_after_clean(before, s0, "${launcher_version}"@, "alpha"@);
    }
    let o = spec_replace(arg, "${launcher_name}"@, "mcvm"@);
    let o = spec_replace(o, "${launcher_version}"@, "alpha"@);
    assert(o == arg);
    lemma_replace_after_clean(before, s0, g, p.classpath@);
    assert(s0.subrange(0, g.len() as int) =~= g);
    let rest = s0.subrange(g.len() as int, s0.len() as int);
    assert(rest =~= after);
    if after.len() >= g.len() {
        assert(after.subrange(0, g.len() as int)[0] == after[0]);
    }
    lemma_replace_skips(after, g, p.classpath@);
    let w = before + p.classpath@ + after;
    assert(spec_replace(o, g, p.classpath@) =~= w);
    assert(no_dollar(w)) by {
        assert forall|i: int| 0 <= i < w.len() implies w[i] != '$' by {
            if i < before.len() {
                assert(w[i] == before[i]);
            } else if i < before.len() + (p.classpath@).len() {
                assert(w[i] == (p.classpath@)[i - before.len()]);
            } else {
                assert(w[i] == after[i - before.len() - (p.classpath@).len()]);
            }
        }
    }
    assert forall|from: Seq<char>, to: Seq<char>| from.len() > 0 && from[0] == '$' implies #[trigger] spec_replace(
        w,
        from,
        to,
    ) == w && !spec_contains(w, from) by {
        lemma_clean_holds_no_placeholder(w, from, to);
    }
    assert(spec_fill_common(arg, p) == w);
    assert(spec_replace_arg_placeholders(before + g + after, p) == w);
}

/// The `${version_name}` placeholder stands for the game version, where it stands between
/// texts without placeholders and the version holds none.
pub proof fn law_version_name_placeholder(before: Seq<char>, after: Seq<char>, p: ArgParams)
    requires
        no_dollar(before),
        no_dollar(after),
        no_dollar(p.version@),
    ensures
        spec_replace_arg_placeholders(before + "${version_name}"@ + after, p) == before + p.version@ + after,
{
    lemma_placeholders_start_with_dollar();
    let g = "${version_name}"@;
    reveal_strlit("${classpath}");
    reveal_strlit("${launcher_name}");
    reveal_strlit("${launcher_version}");
    reveal_strlit("${natives_directory}");
    reveal_strlit("${version_name}");
    let s0 = g + after;
    let arg = before + s0;
    assert(before + g + after =~= arg);
    assert forall|i: int| 1 <= i < s0.len() implies s0[i] != '$' by {
        if i >= g.len() {
            assert(s0[i] == after[i - g.len()]);
        }
    }
    assert(spec_replace(arg, "${launcher_name}"@, "mcvm"@) == arg) by {
        if s0.len() >= "${launcher_name}"@.len() {
            assert(s0.subrange(0, "${launcher_name}"@.len() as int)[2] == 'v');
            assert("${launcher_name}"@[2] == 'l');
        }
        lemma_replace_skips(s0, "${launcher_name}"@, "mcvm"@);
        lemma_replace_after_clean(before, s0, "${launcher_name}"@, "mcvm"@);
    }
    assert(spec_replace(arg, "${launcher_version}"@, "alpha"@) == arg) by {
        if s0.len() >= "${launcher_version}"@.len() {
            assert(s0.subrange(0, "${launcher_version}"@.len() as int)[2] == 'v');
            assert("${launcher_version}"@[2] == 'l');
        }
        lemma_replace_skips(s0, "${launcher_version}"@, "alpha"@);
        lemma_replace_after_clean(before, s0, "${launcher_version}"@, "alpha"@);
    }
    assert(spec_replace(arg, "${classpath}"@, p.classpath@) == arg) by {
        if s0.len() >= "${classpath}"@.len() {
            assert(s0.subrange(0, "${classpath}"@.len() as int)[2] == 'v');
            assert("${classpath}"@[2] == 'c');
        }
        lemma_replace_skips(s0, "${classpath}"@, p.classpath@);
        lemma_replace_after_clean(before, s0, "${classpath}"@, p.classpath@);
    }
    assert(spec_replace(arg, "${natives_directory}"@, spec_natives_dir(p.internal_dir@, p.version@)) == arg) by {
        if s0.len() >= "${natives_directory}"@.len() {
            assert(s0.subrange(0, "${natives_directory}"@.len() as int)[2] == 'v');
            assert("${natives_directory}"@[2] == 'n');
        }
        lemma_replace_skips(s0, "${natives_directory}"@, spec_natives_dir(p.internal_dir@, p.version@));
        lemma_replace_after_clean(before, s0, "${natives_directory}"@, spec_natives_dir(p.internal_dir@, p.version@));
    }
    let o = spec_replace(arg, "${launcher_name}"@, "mcvm"@);
    let o = spec_replace(o, "${launcher_version}"@, "alpha"@);
    let o = spec_replace(o, "${classpath}"@, p.classpath@);
    let o = spec_replace(o, "${natives_directory}"@, spec_natives_dir(p.internal_dir@, p.version@));
    assert(o == arg);
    lemma_replace_after_clean(before, s0, g, p.version@);
    assert(s0.subrange(0, g.len() as int) =~= g);
    let rest = s0.subrange(g.len() as int, s0.len() as int);
    assert(rest =~= after);
    if after.len() >= g.len() {
        assert(after.subrange(0, g.len() as int)[0] == after[0]);
    }
    lemma_replace_skips(after, g, p.version@);
    let w = before + p.version@ + after;
    assert(spec_replace(o, g, p.version@) =~= w);
    assert(no_dollar(w)) by {
        assert forall|i: int| 0 <= i < w.len() implies w[i] != '$' by {
            if i < before.len() {
                assert(w[i] == before[i]);
            } else if i < before.len() + (p.version@).len() {
                assert(w[i] == (p.version@)[i - before.len()]);
            } else {
                assert(w[i] == after[i - before.len() - (p.version@).len()]);
            }
        }
    }
    assert forall|from: Seq<char>, to: Seq<char>| from.len() > 0 && from[0] == '$' implies #[trigger] spec_replace(
        w,
        from,
        to,
    ) == w && !spec_contains(w, from) by {
        lemma_clean_holds_no_placeholder(w, from, to);
    }
    assert(spec_fill_common(arg, p) == w);
    assert(spec_replace_arg_placeholders(before + g + after, p) == w);
}

/// The `${assets_root}` placeholder stands for the assets directory, where it stands
/// between texts without placeholders and the directory holds none.
pub proof fn law_assets_root_placeholder(before: Seq<char>, after: Seq<char>, p: ArgParams)
    requires
        no_dollar(before),
        no_dollar(after),
        no_dollar(p.assets_dir@),
    ensures
        spec_replace_arg_placeholders(before + "${assets_root}"@ + after, p) == before + p.assets_dir@ + after,
{
    lemma_placeholders_start_with_dollar();
    let g = "${assets_root}"@;
    reveal_strlit("${assets_root}");
    reveal_strlit("${classpath}");
    reveal_strlit("${game_directory}");
    reveal_strlit("${launcher_name}");
    reveal_strlit("${launcher_version}");
    reveal_strlit("${natives_directory}");
    reveal_strlit("${version_name}");
    reveal_strlit("${version_type}");
    let s0 = g + after;
    let arg = before + s0;
    assert(before + g + after =~= arg);
    assert forall|i: int| 1 <= i < s0.len() implies s0[i] != '$' by {
        if i >= g.len() {
            assert(s0[i] == after[i - g.len()]);
        }
    }
    assert(spec_replace(arg, "${launcher_name}"@, "mcvm"@) == arg) by {
        if s0.len() >= "${launcher_name}"@.len() {
            assert(s0.subrange(0, "${launcher_name}"@.len() as int)[2] == 'a');
            assert("${launcher_name}"@[2] == 'l');
        }
        lemma_replace_skips(s0, "${launcher_name}"@, "mcvm"@);
        lemma_replace_after_clean(before, s0, "${launcher_name}"@, "mcvm"@);
    }
    assert(spec_replace(arg, "${launcher_version}"@, "alpha"@) == arg) by {
        if s0.len() >= "${launcher_version}"@.len() {
            assert(s0.subrange(0, "${launcher_version}"@.len() as int)[2] == 'a');
            assert("${launcher_version}"@[2] == 'l');
        }
        lemma_replace_skips(s0, "${launcher_version}"@, "alpha"@);
        lemma_replace_after_clean(before, s0, "${launcher_version}"@, "alpha"@);
    }
    assert(spec_replace(arg, "${classpath}"@, p.classpath@) == arg) by {
        if s0.len() >= "${classpath}"@.len() {
            assert(s0.subrange(0, "${classpath}"@.len() as int)[2] == 'a');
            assert("${classpath}"@[2] == 'c');
        }
        lemma_replace_skips(s0, "${classpath}"@, p.classpath@);
        lemma_replace_after_clean(before, s0, "${classpath}"@, p.classpath@);
    }
    assert(spec_replace(arg, "${natives_directory}"@, spec_natives_dir(p.internal_dir@, p.version@)) == arg) by {
        if s0.len() >= "${natives_directory}"@.len() {
            assert(s0.subrange(0, "${natives_directory}"@.len() as int)[2] == 'a');
            assert("${natives_directory}"@[2] == 'n');
        }
        lemma_replace_skips(s0, "${natives_directory}"@, spec_natives_dir(p.internal_dir@, p.version@));
        lemma_replace_after_clean(before, s0, "${natives_directory}"@, spec_natives_dir(p.internal_dir@, p.version@));
    }
    assert(spec_replace(arg, "${version_name}"@, p.version@) == arg) by {
        if s0.len() >= "${version_name}"@.len() {
            assert(s0.subrange(0, "${version_name}"@.len() as int)[2] == 'a');
            assert("${version_name}"@[2] == 'v');
        }
        lemma_replace_skips(s0, "${version_name}"@, p.version@);
        lemma_replace_after_clean(before, s0, "${version_name}"@, p.version@);
    }
    assert(spec_replace(arg, "${version_type}"@, "mcvm"@) == arg) by {
        if s0.len() >= "${version_type}"@.len() {
            assert(s0.subrange(0, "${version_type}"@.len() as int)[2] == 'a');
            assert("${version_type}"@[2] == 'v');
        }
        lemma_replace_skips(s0, "${version_type}"@, "mcvm"@);
        lemma_replace_after_clean(before, s0, "${version_type}"@, "mcvm"@);
    }
    assert(spec_replace(arg, "${game_directory}"@, p.launch_dir@) == arg) by {
        if s0.len() >= "${game_directory}"@.len() {
            assert(s0.subrange(0, "${game_directory}"@.len() as int)[2] == 'a');
            assert("${game_directory}"@[2] == 'g');
        }
        lemma_replace_skips(s0, "${game_directory}"@, p.launch_dir@);
        lemma_replace_after_clean(before, s0, "${game_directory}"@, p.launch_dir@);
    }
    let o = spec_replace(arg, "${launcher_name}"@, "mcvm"@);
    let o = spec_replace(o, "${launcher_version}"@, "alpha"@);
    let o = spec_replace(o, "${classpath}"@, p.classpath@);
    let o = spec_replace(o, "${natives_directory}"@, spec_natives_dir(p.internal_dir@, p.version@));
    let o = spec_replace(o, "${version_name}"@, p.version@);
    let o = spec_replace(o, "${version_type}"@, "mcvm"@);
    let o = spec_replace(o, "${game_directory}"@, p.launch_dir@);
    assert(o == arg);
    lemma_replace_after_clean(before, s0, g, p.assets_dir@);
    assert(s0.subrange(0, g.len() as int) =~= g);
    let rest = s0.subrange(g.len() as int, s0.len() as int);
    assert(rest =~= after);
    if after.len() >= g.len() {
        assert(after.subrange(0, g.len() as int)[0] == after[0]);
    }
    lemma_replace_skips(after, g, p.assets_dir@);
    let w = before + p.assets_dir@ + after;
    assert(spec_replace(o, g, p.assets_dir@) =~= w);
    assert(no_dollar(w)) by {
        assert forall|i: int| 0 <= i < w.len() implies w[i] != '$' by {
            if i < before.len() {
                assert(w[i] == before[i]);
            } else if i < before.len() + (p.assets_dir@).len() {
                assert(w[i] == (p.assets_dir@)[i - before.len()]);
            } else {
                assert(w[i] == after[i - before.len() - (p.assets_dir@).len()]);
            }
        }
    }
    assert forall|from: Seq<char>, to: Seq<char>| from.len() > 0 && from[0] == '$' implies #[trigger] spec_replace(
        w,
        from,
        to,
    ) == w && !spec_contains(w, from) by {
        lemma_clean_holds_no_placeholder(w, from, to);
    }
    assert(spec_fill_common(arg, p) == w);
    assert(spec_replace_arg_placeholders(before + g + after, p) == w);
}

/// The `${assets_index_name}` placeholder stands for the game version, where it stands
/// between texts without placeholders and the version holds none.
pub proof fn law_assets_index_name_placeholder(before: Seq<char>, after: Seq<char>, p: ArgParams)
    requires
        no_dollar(before),
        no_dollar(after),
        no_dollar(p.version@),
    ensures
        spec_replace_arg_placeholders(before + "${assets_index_name}"@ + after, p) == before + p.version@ + after,
{
    lemma_placeholders_start_with_dollar();
    let g = "${assets_index_name}"@;
    reveal_strlit("${assets_index_name}");
    reveal_strlit("${assets_root}");
    reveal_strlit("${classpath}");
    reveal_strlit("${game_directory}");
    reveal_strlit("${launcher_name}");
    reveal_strlit("${launcher_version}");
    reveal_strlit("${natives_directory}");
    reveal_strlit("${version_name}");
    reveal_strlit("${version_type}");
    let s0 = g + after;
    let arg = before + s0;
    assert(before + g + after =~= arg);
    assert forall|i: int| 1 <= i < s0.len() implies s0[i] != '$' by {
        if i >= g.len() {
            assert(s0[i] == after[i - g.len()]);
        }
    }
    assert(spec_replace(arg, "${launcher_name}"@, "mcvm"@) == arg) by {
        if s0.len() >= "${launcher_name}"@.len() {
            assert(s0.subrange(0, "${launcher_name}"@.len() as int)[2] == 'a');
            assert("${launcher_name}"@[2] == 'l');
        }
        lemma_replace_skips(s0, "${launcher_name}"@, "mcvm"@);
        lemma_replace_after_clean(before, s0, "${launcher_name}"@, "mcvm"@);
    }
    assert(spec_replace(arg, "${launcher_version}"@, "alpha"@) == arg) by {
        if s0.len() >= "${launcher_version}"@.len() {
            assert(s0.subrange(0, "${launcher_version}"@.len() as int)[2] == 'a');
            assert("${launcher_version}"@[2] == 'l');
        }
        lemma_replace_skips(s0, "${launcher_version}"@, "alpha"@);
        lemma_replace_after_clean(before, s0, "${launcher_version}"@, "alpha"@);
    }
    assert(spec_replace(arg, "${classpath}"@, p.classpath@) == arg) by {
        if s0.len() >= "${classpath}"@.len() {
            assert(s0.subrange(0, "${classpath}"@.len() as int)[2] == 'a');
            assert("${classpath}"@[2] == 'c');
        }
        lemma_replace_skips(s0, "${classpath}"@, p.classpath@);
        lemma_replace_after_clean(before, s0, "${classpath}"@, p.classpath@);
    }
    assert(spec_replace(arg, "${natives_directory}"@, spec_natives_dir(p.internal_dir@, p.version@)) == arg) by {
        if s0.len() >= "${natives_directory}"@.len() {
            assert(s0.subrange(0, "${natives_directory}"@.len() as int)[2] == 'a');
            assert("${natives_directory}"@[2] == 'n');
        }
        lemma_replace_skips(s0, "${natives_directory}"@, spec_natives_dir(p.internal_dir@, p.version@));
        lemma_replace_after_clean(before, s0, "${natives_directory}"@, spec_natives_dir(p.internal_dir@, p.version@));
    }
    assert(spec_replace(arg, "${version_name}"@, p.version@) == arg) by {
        if s0.len() >= "${version_name}"@.len() {
            assert(s0.subrange(0, "${version_name}"@.len() as int)[2] == 'a');
            assert("${version_name}"@[2] == 'v');
        }
        lemma_replace_skips(s0, "${version_name}"@, p.version@);
        lemma_replace_after_clean(before, s0, "${version_name}"@, p.version@);
    }
    assert(spec_replace(arg, "${version_type}"@, "mcvm"@) == arg) by {
        if s0.len() >= "${version_type}"@.len() {
            assert(s0.subrange(0, "${version_type}"@.len() as int)[2] == 'a');
            assert("${version_type}"@[2] == 'v');
        }
        lemma_replace_skips(s0, "${version_type}"@, "mcvm"@);
        lemma_replace_after_clean(before, s0, "${version_type}"@, "mcvm"@);
    }
    assert(spec_replace(arg, "${game_directory}"@, p.launch_dir@) == arg) by {
        if s0.len() >= "${game_directory}"@.len() {
            assert(s0.subrange(0, "${game_directory}"@.len() as int)[2] == 'a');
            assert("${game_directory}"@[2] == 'g');
        }
        lemma_replace_skips(s0, "${game_directory}"@, p.launch_dir@);
        lemma_replace_after_clean(before, s0, "${game_directory}"@, p.launch_dir@);
    }
    assert(spec_replace(arg, "${assets_root}"@, p.assets_dir@) == arg) by {
        if s0.len() >= "${assets_root}"@.len() {
            assert(s0.subrange(0, "${assets_root}"@.len() as int)[9] == 'i');
            assert("${assets_root}"@[9] == 'r');
        }
        lemma_replace_skips(s0, "${assets_root}"@, p.assets_dir@);
        lemma_replace_after_clean(before, s0, "${assets_root}"@, p.assets_dir@);
    }
    let o = spec_replace(arg, "${launcher_name}"@, "mcvm"@);
    let o = spec_replace(o, "${launcher_version}"@, "alpha"@);
    let o = spec_replace(o, "${classpath}"@, p.classpath@);
    let o = spec_replace(o, "${natives_directory}"@, spec_natives_dir(p.internal_dir@, p.version@));
    let o = spec_replace(o, "${version_name}"@, p.version@);
    let o = spec_replace(o, "${version_type}"@, "mcvm"@);
    let o = spec_replace(o, "${game_directory}"@, p.launch_dir@);
    let o = spec_replace(o, "${assets_root}"@, p.assets_dir@);
    assert(o == arg);
    lemma_replace_after_clean(before, s0, g, p.version@);
    assert(s0.subrange(0, g.len() as int) =~= g);
    let rest = s0.subrange(g.len() as int, s0.len() as int);
    assert(rest =~= after);
    if after.len() >= g.len() {
        assert(after.subrange(0, g.len() as int)[0] == after[0]);
    }
    lemma_replace_skips(after, g, p.version@);
    let w = before + p.version@ + after;
    assert(spec_replace(o, g, p.version@) =~= w);
    assert(no_dollar(w)) by {
        assert forall|i: int| 0 <= i < w.len() implies w[i] != '$' by {
            if i < before.len() {
                assert(w[i] == before[i]);
            } else if i < before.len() + (p.version@).len() {
                assert(w[i] == (p.version@)[i - before.len()]);
            } else {
                assert(w[i] == after[i - before.len() - (p.version@).len()]);
            }
        }
    }
    assert forall|from: Seq<char>, to: Seq<char>| from.len() > 0 && from[0] == '$' implies #[trigger] spec_replace(
        w,
        from,
        to,
    ) == w && !spec_contains(w, from) by {
        lemma_clean_holds_no_placeholder(w, from, to);
    }
    assert(spec_fill_common(arg, p) == w);
    assert(spec_replace_arg_placeholders(before + g + after, p) == w);
}

/// The `${natives_directory}` placeholder stands for the natives directory of the game
/// version inside the launcher's internal directory, where it stands between texts without
/// placeholders and that directory holds none.
pub proof fn law_natives_directory_placeholder(before: Seq<char>, after: Seq<char>, p: ArgParams)
    requires
        no_dollar(before),
        no_dollar(after),
        no_dollar(spec_natives_dir(p.internal_dir@, p.version@)),
    ensures
        spec_replace_arg_placeholders(before + "${natives_directory}"@ + after, p) == before + spec_natives_dir(p.internal_dir@, p.version@) + after,
{
    lemma_placeholders_start_with_dollar();
    let g = "${natives_directory}"@;
    reveal_strlit("${classpath}");
    reveal_strlit("${launcher_name}");
    reveal_strlit("${launcher_version}");
    reveal_strlit("${natives_directory}");
    let s0 = g + after;
    let arg = before + s0;
    assert(before + g + after =~= arg);
    assert forall|i: int| 1 <= i < s0.len() implies s0[i] != '$' by {
        if i >= g.len() {
            assert(s0[i] == after[i - g.len()]);
        }
    }
    assert(spec_replace(arg, "${launcher_name}"@, "mcvm"@) == arg) by {
        if s0.len() >= "${launcher_name}"@.len() {
            assert(s0.subrange(0, "${launcher_name}"@.len() as int)[2] == 'n');
            assert("${launcher_name}"@[2] == 'l');
        }
        lemma_replace_skips(s0, "${launcher_name}"@, "mcvm"@);
        lemma_replace_after_clean(before, s0, "${launcher_name}"@, "mcvm"@);
    }
    assert(spec_replace(arg, "${launcher_version}"@, "alpha"@) == arg) by {
        if s0.len() >= "${launcher_version}"@.len() {
            assert(s0.subrange(0, "${launcher_version}"@.len() as int)[2] == 'n');
            assert("${launcher_version}"@[2] == 'l');
        }
        lemma_replace_skips(s0, "${launcher_version}"@, "alpha"@);
        lemma_replace_after_clean(before, s0, "${launcher_version}"@, "alpha"@);
    }
    assert(spec_replace(arg, "${classpath}"@, p.classpath@) == arg) by {
        if s0.len() >= "${classpath}"@.len() {
            assert(s0.subrange(0, "${classpath}"@.len() as int)[2] == 'n');
            assert("${classpath}"@[2] == 'c');
        }
        lemma_replace_skips(s0, "${classpath}"@, p.classpath@);
        lemma_replace_after_clean(before, s0, "${classpath}"@, p.classpath@);
    }
    let o = spec_replace(arg, "${launcher_name}"@, "mcvm"@);
    let o = spec_replace(o, "${launcher_version}"@, "alpha"@);
    let o = spec_replace(o, "${classpath}"@, p.classpath@);
    assert(o == arg);
    lemma_replace_after_clean(before, s0, g, spec_natives_dir(p.internal_dir@, p.version@));
    assert(s0.subrange(0, g.len() as int) =~= g);
    let rest = s0.subrange(g.len() as int, s0.len() as int);
    assert(rest =~= after);
    if after.len() >= g.len() {
        assert(after.subrange(0, g.len() as int)[0] == after[0]);
    }
    lemma_replace_skips(after, g, spec_natives_dir(p.internal_dir@, p.version@));
    let w = before + spec_natives_dir(p.internal_dir@, p.version@) + after;
    assert(spec_replace(o, g, spec_natives_dir(p.internal_dir@, p.version@)) =~= w);
    assert(no_dollar(w)) by {
        assert forall|i: int| 0 <= i < w.len() implies w[i] != '$' by {
            if i < before.len() {
                assert(w[i] == before[i]);
            } else if i < before.len() + (spec_natives_dir(p.internal_dir@, p.version@)).len() {
                assert(w[i] == (spec_natives_dir(p.internal_dir@, p.version@))[i - before.len()]);
            } else {
                assert(w[i] == after[i - before.len() - (spec_natives_dir(p.internal_dir@, p.version@)).len()]);
            }
        }
    }
    assert forall|from: Seq<char>, to: Seq<char>| from.len() > 0 && from[0] == '$' implies #[trigger] spec_replace(
        w,
        from,
        to,
    ) == w && !spec_contains(w, from) by {
        lemma_clean_holds_no_placeholder(w, from, to);
    }
    assert(spec_fill_common(arg, p) == w);
    assert(spec_replace_arg_placeholders(before + g + after, p) == w);
}

/// The `${game_assets}` placeholder stands for the legacy virtual assets directory inside
/// the assets directory, where it stands between texts without placeholders and that
/// directory holds none.
pub proof fn law_game_assets_placeholder(before: Seq<char>, after: Seq<char>, p: ArgParams)
    requires
        no_dollar(before),
        no_dollar(after),
        no_dollar(spec_join(spec_join(p.assets_dir@, "virtual"@), "legacy"@)),
    ensures
        spec_replace_arg_placeholders(before + "${game_assets}"@ + after, p) == before + spec_join(spec_join(p.assets_dir@, "virtual"@), "legacy"@) + after,
{
    lemma_placeholders_start_with_dollar();
    let g = "${game_assets}"@;
    reveal_strlit("${assets_index_name}");
    reveal_strlit("${assets_root}");
    reveal_strlit("${classpath}");
    reveal_strlit("${game_assets}");
    reveal_strlit("${game_directory}");
    reveal_strlit("${launcher_name}");
    reveal_strlit("${launcher_version}");
    reveal_strlit("${natives_directory}");
    reveal_strlit("${version_name}");
    reveal_strlit("${version_type}");
    let s0 = g + after;
    let arg = before + s0;
    assert(before + g + after =~= arg);
    assert forall|i: int| 1 <= i < s0.len() implies s0[i] != '$' by {
        if i >= g.len() {
            assert(s0[i] == after[i - g.len()]);
        }
    }
    assert(spec_replace(arg, "${launcher_name}"@, "mcvm"@) == arg) by {
        if s0.len() >= "${launcher_name}"@.len() {
            assert(s0.subrange(0, "${launcher_name}"@.len() as int)[2] == 'g');
            assert("${launcher_name}"@[2] == 'l');
        }
        lemma_replace_skips(s0, "${launcher_name}"@, "mcvm"@);
        lemma_replace_after_clean(before, s0, "${launcher_name}"@, "mcvm"@);
    }
    assert(spec_replace(arg, "${launcher_version}"@, "alpha"@) == arg) by {
        if s0.len() >= "${launcher_version}"@.len() {
            assert(s0.subrange(0, "${launcher_version}"@.len() as int)[2] == 'g');
            assert("${launcher_version}"@[2] == 'l');
        }
        lemma_replace_skips(s0, "${launcher_version}"@, "alpha"@);
        lemma_replace_after_clean(before, s0, "${launcher_version}"@, "alpha"@);
    }
    assert(spec_replace(arg, "${classpath}"@, p.classpath@) == arg) by {
        if s0.len() >= "${classpath}"@.len() {
            assert(s0.subrange(0, "${classpath}"@.len() as int)[2] == 'g');
            assert("${classpath}"@[2] == 'c');
        }
        lemma_replace_skips(s0, "${classpath}"@, p.classpath@);
        lemma_replace_after_clean(before, s0, "${classpath}"@, p.classpath@);
    }
    assert(spec_replace(arg, "${natives_directory}"@, spec_natives_dir(p.internal_dir@, p.version@)) == arg) by {
        if s0.len() >= "${natives_directory}"@.len() {
            assert(s0.subrange(0, "${natives_directory}"@.len() as int)[2] == 'g');
            assert("${natives_directory}"@[2] == 'n');
        }
        lemma_replace_skips(s0, "${natives_directory}"@, spec_natives_dir(p.internal_dir@, p.version@));
        lemma_replace_after_clean(before, s0, "${natives_directory}"@, spec_natives_dir(p.internal_dir@, p.version@));
    }
    assert(spec_replace(arg, "${version_name}"@, p.version@) == arg) by {
        if s0.len() >= "${version_name}"@.len() {
            assert(s0.subrange(0, "${version_name}"@.len() as int)[2] == 'g');
            assert("${version_name}"@[2] == 'v');
        }
        lemma_replace_skips(s0, "${version_name}"@, p.version@);
        lemma_replace_after_clean(before, s0, "${version_name}"@, p.version@);
    }
    assert(spec_replace(arg, "${version_type}"@, "mcvm"@) == arg) by {
        if s0.len() >= "${version_type}"@.len() {
            assert(s0.subrange(0, "${version_type}"@.len() as int)[2] == 'g');
            assert("${version_type}"@[2] == 'v');
        }
        lemma_replace_skips(s0, "${version_type}"@, "mcvm"@);
        lemma_replace_after_clean(before, s0, "${version_type}"@, "mcvm"@);
    }
    assert(spec_replace(arg, "${game_directory}"@, p.launch_dir@) == arg) by {
        if s0.len() >= "${game_directory}"@.len() {
            assert(s0.subrange(0, "${game_directory}"@.len() as int)[7] == 'a');
            assert("${game_directory}"@[7] == 'd');
        }
        lemma_replace_skips(s0, "${game_directory}"@, p.launch_dir@);
        lemma_replace_after_clean(before, s0, "${game_directory}"@, p.launch_dir@);
    }
    assert(spec_replace(arg, "${assets_root}"@, p.assets_dir@) == arg) by {
        if s0.len() >= "${assets_root}"@.len() {
            assert(s0.subrange(0, "${assets_root}"@.len() as int)[2] == 'g');
            assert("${assets_root}"@[2] == 'a');
        }
        lemma_replace_skips(s0, "${assets_root}"@, p.assets_dir@);
        lemma_replace_after_clean(before, s0, "${assets_root}"@, p.assets_dir@);
    }
    assert(spec_replace(arg, "${assets_index_name}"@, p.version@) == arg) by {
        if s0.len() >= "${assets_index_name}"@.len() {
            assert(s0.subrange(0, "${assets_index_name}"@.len() as int)[2] == 'g');
            assert("${assets_index_name}"@[2] == 'a');
        }
        lemma_replace_skips(s0, "${assets_index_name}"@, p.version@);
        lemma_replace_after_clean(before, s0, "${assets_index_name}"@, p.version@);
    }
    let o = spec_replace(arg, "${launcher_name}"@, "mcvm"@);
    let o = spec_replace(o, "${launcher_version}"@, "alpha"@);
    let o = spec_replace(o, "${classpath}"@, p.classpath@);
    let o = spec_replace(o, "${natives_directory}"@, spec_natives_dir(p.internal_dir@, p.version@));
    let o = spec_replace(o, "${version_name}"@, p.version@);
    let o = spec_replace(o, "${version_type}"@, "mcvm"@);
    let o = spec_replace(o, "${game_directory}"@, p.launch_dir@);
    let o = spec_replace(o, "${assets_root}"@, p.assets_dir@);
    let o = spec_replace(o, "${assets_index_name}"@, p.version@);
    assert(o == arg);
    lemma_replace_after_clean(before, s0, g, spec_join(spec_join(p.assets_dir@, "virtual"@), "legacy"@));
    assert(s0.subrange(0, g.len() as int) =~= g);
    let rest = s0.subrange(g.len() as int, s0.len() as int);
    assert(rest =~= after);
    if after.len() >= g.len() {
        assert(after.subrange(0, g.len() as int)[0] == after[0]);
    }
    lemma_replace_skips(after, g, spec_join(spec_join(p.assets_dir@, "virtual"@), "legacy"@));
    let w = before + spec_join(spec_join(p.assets_dir@, "virtual"@), "legacy"@) + after;
    assert(spec_replace(o, g, spec_join(spec_join(p.assets_dir@, "virtual"@), "legacy"@)) =~= w);
    assert(no_dollar(w)) by {
        assert forall|i: int| 0 <= i < w.len() implies w[i] != '$' by {
            if i < before.len() {
                assert(w[i] == before[i]);
            } else if i < before.len() + (spec_join(spec_join(p.assets_dir@, "virtual"@), "legacy"@)).len() {
                assert(w[i] == (spec_join(spec_join(p.assets_dir@, "virtual"@), "legacy"@))[i - before.len()]);
            } else {
                assert(w[i] == after[i - before.len() - (spec_join(spec_join(p.assets_dir@, "virtual"@), "legacy"@)).len()]);
            }
        }
    }
    assert forall|from: Seq<char>, to: Seq<char>| from.len() > 0 && from[0] == '$' implies #[trigger] spec_replace(
        w,
        from,
        to,
    ) == w && !spec_contains(w, from) by {
        lemma_clean_holds_no_placeholder(w, from, to);
    }
    assert(spec_fill_common(arg, p) == w);
    assert(spec_replace_arg_placeholders(before + g + after, p) == w);
}

/// The text that stands for the joined server
fn server_text(server: &String, port: Option<u16>) -> (r: String)
    ensures
        r@ == spec_server_text(server@, port),
{
    match port {
        Some(p) => {
            let mut out = server.clone();
            string_push(&mut out, ':');
            let digits = u64_to_decimal(p as u64);
            string_push_str(&mut out, digits.as_str());
            out
        },
        None => server.clone(),
    }
}

/// Fills the placeholders that do not depend on the user
fn fill_common(arg: &str, params: &ArgParams) -> (r: String)
    ensures
        r@ == spec_fill_common(arg@, *params),
{
    proof {
        lemma_placeholder_literals();
    }
    let mut out = replace_all(arg, "${launcher_name}", "mcvm");
    out = replace_all(out.as_str(), "${launcher_version}", "alpha");
    out = replace_all(out.as_str(), "${classpath}", params.classpath.as_str());
    let versions = join_path(params.internal_dir.as_str(), "versions");
    let version_dir = join_path(versions.as_str(), params.version.as_str());
    let natives = join_path(version_dir.as_str(), "natives");
    out = replace_all(out.as_str(), "${natives_directory}", natives.as_str());
    out = replace_all(out.as_str(), "${version_name}", params.version.as_str());
    out = replace_all(out.as_str(), "${version_type}", "mcvm");
    out = replace_all(out.as_str(), "${game_directory}", params.launch_dir.as_str());
    out = replace_all(out.as_str(), "${assets_root}", params.assets_dir.as_str());
    out = replace_all(out.as_str(), "${assets_index_name}", params.version.as_str());
    let virtual_dir = crate::assets::get_virtual_dir_path(params.assets_dir.as_str());
    out = replace_all(out.as_str(), "${game_assets}", virtual_dir.as_str());
    out = replace_all(out.as_str(), "${user_type}", "msa");
    out = replace_all(out.as_str(), "${clientid}", "mcvm");
    out = replace_all(out.as_str(), "${user_properties}", "\"\"");
    let resolution = match &params.side {
        InstanceKind::Client { window } => window.resolution,
        _ => None,
    };
    match resolution {
        Some(r) => {
            let w = u64_to_decimal(r.width as u64);
            let h = u64_to_decimal(r.height as u64);
            out = replace_all(out.as_str(), "${resolution_width}", w.as_str());
            out = replace_all(out.as_str(), "${resolution_height}", h.as_str());
        },
        None => {},
    }
    out = replace_all(out.as_str(), "${quickPlayPath}", "quickPlay/log.json");
    let single = match &params.quick_play {
        QuickPlayType::World { world } => world.clone(),
        _ => String::new(),
    };
    out = replace_all(out.as_str(), "${quickPlaySingleplayer}", single.as_str());
    let multi = match &params.quick_play {
        QuickPlayType::Server { server, port } => server_text(server, *port),
        _ => String::new(),
    };
    out = replace_all(out.as_str(), "${quickPlayMultiplayer}", multi.as_str());
    let realm = match &params.quick_play {
        QuickPlayType::Realm { realm } => realm.clone(),
        _ => String::new(),
    };
    replace_all(out.as_str(), "${quickPlayRealms}", realm.as_str())
}

/// Replace placeholders in a string argument from the client meta
pub fn replace_arg_placeholders(arg: &str, params: &ArgParams) -> (r: String)
    requires
        params.side is Client,
    ensures
        r@ == spec_replace_arg_placeholders(arg@, *params),
{
    proof {
        lemma_placeholder_literals();
        reveal_strlit("UnknownUser");
    }
    let mut out = fill_common(arg, params);
    match &params.user {
        Some(user) => {
            out = replace_all(out.as_str(), "${auth_player_name}", user.name.as_str());
            match &user.uuid {
                Some(uuid) => {
                    out = replace_all(out.as_str(), "${auth_uuid}", uuid.as_str());
                },
                None => {},
            }
            match &user.access_token {
                Some(token) => {
                    out = replace_all(out.as_str(), "${auth_access_token}", token.as_str());
                },
                None => {},
            }
            match &user.kind {
                UserKind::Microsoft { xbox_uid: Some(xbox_uid) } => {
                    out = replace_all(out.as_str(), "${auth_xuid}", xbox_uid.as_str());
                },
                _ => {},
            }
            if contains_str(out.as_str(), "${auth_player_name}") || contains_str(
                out.as_str(),
                "${auth_access_token}",
            ) || contains_str(out.as_str(), "${auth_uuid}") {
                return String::new();
            }
        },
        None => {
            if contains_str(out.as_str(), "${auth_player_name}") {
                return owned("UnknownUser");
            }
            if contains_str(out.as_str(), "${auth_access_token}") || contains_str(
                out.as_str(),
                "${auth_uuid}",
            ) {
                return String::new();
            }
        },
    }
    out
}

/// Process a simple string argument
pub fn process_simple_arg(arg: &str, params: &ArgParams) -> (r: String)
    requires
        params.side is Client,
    ensures
        r@ == spec_replace_arg_placeholders(arg@, *params),
{
    replace_arg_placeholders(arg, params)
}

/// Fill the logging path argument with the correct path
pub fn fill_logging_path_arg(arg: String, path: &str) -> (r: String)
    ensures
        r@ == spec_replace(arg@, "${path}"@, path@),
{
    proof {
        lemma_placeholder_literals();
    }
    replace_all(arg.as_str(), "${path}", path)
}

/// Whether a rule allows or disallows what it matches
#[derive(Debug, Clone, Copy, PartialEq, Eq, Structural)]
pub enum RuleAction {
    Allow,
    Disallow,
}

/// The operating system that a rule matches
#[derive(Debug, Clone, PartialEq, Eq)]
pub struct OsRule {
    /// The name of the operating system
    pub name: Option<String>,
    /// The architecture
    pub arch: Option<String>,
}

/// The launcher features that a rule asks for
#[derive(Debug, Clone, Copy, PartialEq, Eq, Structural)]
pub struct FeatureRule {
    pub has_custom_resolution: Option<bool>,
    pub is_demo_user: Option<bool>,
    pub has_quick_play_support: Option<bool>,
    pub is_quick_play_singleplayer: Option<bool>,
    pub is_quick_play_multiplayer: Option<bool>,
    pub is_quick_play_realms: Option<bool>,
}

/// A rule of a conditional argument
#[derive(Debug, Clone, PartialEq, Eq)]
pub struct GameRule {
    pub action: RuleAction,
    pub os: OsRule,
    pub features: FeatureRule,
}

/// Arguments that apply only where all of their rules pass
#[derive(Debug, Clone, PartialEq, Eq)]
pub struct ConditionalArguments {
    pub rules: Vec<GameRule>,
    pub value: Vec<String>,
}

/// An argument from the client meta
#[derive(Debug, Clone, PartialEq, Eq)]
pub enum ArgumentItem {
    Simple(String),
    Conditional(ConditionalArguments),
}

/// Whether a rule drops its arguments for these parameters.
pub open spec fn spec_rule_rejects(rule: GameRule, p: ArgParams) -> bool {
    let allowed = rule.action is Allow;
    ||| (rule.os.name matches Some(n) && allowed != (p.os@ == n@))
    ||| (rule.os.arch matches Some(a) && allowed != (p.arch@ == a@))
    ||| (rule.features.has_custom_resolution == Some(true) && client_window(p.side).resolution is None)
    ||| (rule.features.is_demo_user == Some(true) && !(p.user matches Some(u) && u.kind is Demo))
    ||| (rule.features.has_quick_play_support == Some(true) && p.quick_play is Disabled)
    ||| (rule.features.is_quick_play_singleplayer == Some(true) && p.quick_play is World)
    ||| (rule.features.is_quick_play_multiplayer == Some(true) && p.quick_play is Server)
    ||| (rule.features.is_quick_play_realms == Some(true) && p.quick_play is Realm)
}

/// The arguments that an argument item gives: a simple one filled in; a conditional one's
/// values filled in, or none where one of its rules drops them.
pub open spec fn spec_process_arg(arg: ArgumentItem, p: ArgParams) -> Seq<Seq<char>> {
    match arg {
        ArgumentItem::Simple(a) => seq![spec_replace_arg_placeholders(a@, p)],
        ArgumentItem::Conditional(c) => if exists|i: int| 0 <= i < c.rules@.len() && spec_rule_rejects(#[trigger] c.rules@[i], p) {
            Seq::empty()
        } else {
            c.value@.map_values(|v: String| spec_replace_arg_placeholders(v@, p))
        },
    }
}

/// Whether a rule drops its arguments
fn rule_rejects(rule: &GameRule, params: &ArgParams) -> (r: bool)
    ensures
        r == spec_rule_rejects(*rule, *params),
{
    let allowed = match rule.action {
        RuleAction::Allow => true,
        RuleAction::Disallow => false,
    };
    match &rule.os.name {
        Some(n) => {
            if allowed != crate::text::str_eq(params.os.as_str(), n.as_str()) {
                return true;
            }
        },
        None => {},
    }
    match &rule.os.arch {
        Some(a) => {
            if allowed != crate::text::str_eq(params.arch.as_str(), a.as_str()) {
                return true;
            }
        },
        None => {},
    }
    let f = rule.features;
    if f.has_custom_resolution == Some(true) {
        let has_resolution = match &params.side {
            InstanceKind::Client { window } => window.resolution.is_some(),
            _ => false,
        };
        if !has_resolution {
            return true;
        }
    }
    if f.is_demo_user == Some(true) {
        let use_demo = match &params.user {
            Some(user) => matches!(user.kind, UserKind::Demo),
            None => false,
        };
        if !use_demo {
            return true;
        }
    }
    if f.has_quick_play_support == Some(true) && matches!(params.quick_play, QuickPlayType::Disabled) {
        return true;
    }
    if f.is_quick_play_singleplayer == Some(true) && matches!(params.quick_play, QuickPlayType::World { .. }) {
        return true;
    }
    if f.is_quick_play_multiplayer == Some(true) && matches!(params.quick_play, QuickPlayType::Server { .. }) {
        return true;
    }
    if f.is_quick_play_realms == Some(true) && matches!(params.quick_play, QuickPlayType::Realm { .. }) {
        return true;
    }
    false
}

/// Process an argument for the client from the client meta
pub fn process_arg(arg: &ArgumentItem, params: &ArgParams) -> (r: Vec<String>)
    requires
        params.side is Client,
    ensures
        r.deep_view() == spec_process_arg(*arg, *params),
{
    let mut out: Vec<String> = Vec::new();
    match arg {
        ArgumentItem::Simple(a) => {
            out.push(process_simple_arg(a.as_str(), params));
            proof {
                assert(out.deep_view() =~= spec_process_arg(*arg, *params));
            }
        },
        ArgumentItem::Conditional(c) => {
            let ghost target = spec_process_arg(*arg, *params);
            proof {
                assert(target == (if exists|i: int| 0 <= i < c.rules@.len() && spec_rule_rejects(#[trigger] c.rules@[i], *params) {
                    Seq::<Seq<char>>::empty()
                } else {
                    c.value@.map_values(|v: String| spec_replace_arg_placeholders(v@, *params))
                }));
            }
            let mut i: usize = 0;
            while i < c.rules.len()
                invariant
                    i <= c.rules@.len(),
                    out@.len() == 0,
                    target == spec_process_arg(*arg, *params),
                    target == (if exists|i: int| 0 <= i < c.rules@.len() && spec_rule_rejects(#[trigger] c.rules@[i], *params) {
                        Seq::<Seq<char>>::empty()
                    } else {
                        c.value@.map_values(|v: String| spec_replace_arg_placeholders(v@, *params))
                    }),
                    forall|j: int| 0 <= j < i ==> !spec_rule_rejects(#[trigger] c.rules@[j], *params),
                decreases c.rules@.len() - i,
            {
                if rule_rejects(&c.rules[i], params) {
                    proof {
                        assert(spec_rule_rejects(c.rules@[i as int], *params));
                        assert(out.deep_view() =~= Seq::<Seq<char>>::empty());
                    }
                    return out;
                }
                i = i + 1;
            }
            let ghost vals = c.value@.map_values(|v: String| spec_replace_arg_placeholders(v@, *params));
            proof {
                assert(out.deep_view() =~= vals.take(0));
            }
            let mut k: usize = 0;
            while k < c.value.len()
                invariant
                    k <= c.value@.len(),
                    params.side is Client,
                    vals == c.value@.map_values(|v: String| spec_replace_arg_placeholders(v@, *params)),
                    out.deep_view() == vals.take(k as int),
                    !(exists|i: int| 0 <= i < c.rules@.len() && spec_rule_rejects(#[trigger] c.rules@[i], *params)),
                decreases c.value@.len() - k,
            {
                let ghost pre = out.deep_view();
                let filled = process_simple_arg(c.value[k].as_str(), params);
                out.push(filled);
                proof {
                    assert(out.deep_view() =~= pre.push(vals[k as int]));
                    assert(vals.take(k + 1) =~= vals.take(k as int).push(vals[k as int]));
                }
                k = k + 1;
            }
            proof {
                assert(vals.take(c.value@.len() as int) =~= vals);
            }
        },
    }
    out
}

/// A Quick Play option that has no effect on the game version
#[derive(Debug, Clone, Copy, PartialEq, Eq, Structural)]
pub enum QuickPlayWarning {
    /// World Quick Play needs 23w14a or later
    World,
    /// Realm Quick Play needs 23w14a or later
    Realm,
}

impl QuickPlayWarning {
    /// The warning to show
    pub fn message(&self) -> (r: &'static str)
        ensures
            r@ == match self {
                QuickPlayWarning::World => "World Quick Play has no effect before 23w14a (1.20)"@,
                QuickPlayWarning::Realm => "Realm Quick Play has no effect before 23w14a (1.20)"@,
            },
    {
        match self {
            QuickPlayWarning::World => "World Quick Play has no effect before 23w14a (1.20)",
            QuickPlayWarning::Realm => "Realm Quick Play has no effect before 23w14a (1.20)",
        }
    }
}

/// The additional game arguments for Quick Play on versions before 23w14a: the server to
/// join and its port; and the warning for the Quick Play kinds those versions cannot do.
pub open spec fn spec_quick_play_args(quick_play: QuickPlayType, before_23w14a: bool) -> (Seq<Seq<char>>, Option<QuickPlayWarning>) {
    if !before_23w14a {
        (Seq::empty(), None)
    } else {
        match quick_play {
            QuickPlayType::World { .. } => (Seq::empty(), Some(QuickPlayWarning::World)),
            QuickPlayType::Realm { .. } => (Seq::empty(), Some(QuickPlayWarning::Realm)),
            QuickPlayType::Server { server, port } => (
                match port {
                    Some(p) => seq!["--server"@, server@, "--port"@, nat_digits(p as nat)],
                    None => seq!["--server"@, server@],
                },
                None,
            ),
            QuickPlayType::Disabled => (Seq::empty(), None),
        }
    }
}

/// Create the additional game arguments for Quick Play, given whether the game version comes
/// before 23w14a, with the warning to show if any
pub fn create_quick_play_args(quick_play: &QuickPlayType, before_23w14a: bool) -> (r: (
    Vec<String>,
    Option<QuickPlayWarning>,
))
    ensures
        (r.0.deep_view(), r.1) == spec_quick_play_args(*quick_play, before_23w14a),
{
    let mut out: Vec<String> = Vec::new();
    let mut warning = None;
    if before_23w14a {
        match quick_play {
            QuickPlayType::Disabled => {},
            QuickPlayType::World { .. } => {
                warning = Some(QuickPlayWarning::World);
            },
            QuickPlayType::Realm { .. } => {
                warning = Some(QuickPlayWarning::Realm);
            },
            QuickPlayType::Server { server, port } => {
                out.push(owned("--server"));
                out.push(server.clone());
                match port {
                    Some(p) => {
                        out.push(owned("--port"));
                        out.push(u64_to_decimal(*p as u64));
                    },
                    None => {},
                }
            },
        }
    }
    proof {
        assert(out.deep_view() =~= spec_quick_play_args(*quick_play, before_23w14a).0);
    }
    (out, warning)
}

} // verus!
