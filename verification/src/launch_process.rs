//! The command line of the game process

use vstd::prelude::*;

use crate::instance::WrapperCommand;
use crate::text::{append_strings, owned, replace_all, spec_replace, string_push, string_push_str};

verus! {

/// Properties for launching the game process that depend on its side
#[derive(Debug, Clone, PartialEq, Eq)]
pub struct LaunchProcessProperties {
    /// Arguments for the JVM
    pub jvm_args: Vec<String>,
    /// Arguments for the game
    pub game_args: Vec<String>,
    /// Additional environment variables to add to the launch command
    pub additional_env_vars: Vec<(String, String)>,
}

/// Create launch properties for the server: the classpath for the JVM, and no GUI
pub fn get_launch_props(classpath: &str) -> (r: LaunchProcessProperties)
    ensures
        r.jvm_args.deep_view() == seq!["-cp"@, classpath@],
        r.game_args.deep_view() == seq!["nogui"@],
        r.additional_env_vars@.len() == 0,
{
    let mut jvm_args: Vec<String> = Vec::new();
    jvm_args.push(owned("-cp"));
    jvm_args.push(owned(classpath));
    let mut game_args: Vec<String> = Vec::new();
    game_args.push(owned("nogui"));
    proof {
        assert(jvm_args.deep_view() =~= seq!["-cp"@, classpath@]);
        assert(game_args.deep_view() =~= seq!["nogui"@]);
    }
    LaunchProcessProperties { jvm_args, game_args, additional_env_vars: Vec::new() }
}

/// The program that the launch command runs: the wrapper's command if there is one.
pub open spec fn spec_launch_program(wrapper: Option<WrapperCommand>, command: Seq<char>) -> Seq<char> {
    match wrapper {
        Some(w) => w.cmd@,
        None => command,
    }
}

/// The arguments of the launch command: the wrapper's arguments and the command where
/// there is a wrapper, then the configured JVM arguments, the side's JVM arguments,
/// the main class, the side's game arguments and the configured game arguments.
pub open spec fn spec_launch_args(
    wrapper: Option<WrapperCommand>,
    command: Seq<char>,
    config_jvm_args: Seq<Seq<char>>,
    props: LaunchProcessProperties,
    main_class: Option<Seq<char>>,
    config_game_args: Seq<Seq<char>>,
) -> Seq<Seq<char>> {
    let start = match wrapper {
        Some(w) => w.args.deep_view().push(command),
        None => Seq::empty(),
    };
    let class = match main_class {
        Some(m) => seq![m],
        None => Seq::empty(),
    };
    start + config_jvm_args + props.jvm_args.deep_view() + class + props.game_args.deep_view()
        + config_game_args
}

/// The launch command of the game process: its program and its arguments
pub fn launch_command(
    wrapper: &Option<WrapperCommand>,
    command: &str,
    config_jvm_args: &Vec<String>,
    props: &LaunchProcessProperties,
    main_class: &Option<String>,
    config_game_args: &Vec<String>,
) -> (r: (String, Vec<String>))
    ensures
        r.0@ == spec_launch_program(*wrapper, command@),
        r.1.deep_view() == spec_launch_args(
            *wrapper,
            command@,
            config_jvm_args.deep_view(),
            *props,
            crate::text::opt_str_view(*main_class),
            config_game_args.deep_view(),
        ),
{
    let mut args: Vec<String> = Vec::new();
    let program = match wrapper {
        Some(w) => {
            append_strings(&mut args, &w.args);
            let ghost before = args.deep_view();
            args.push(owned(command));
            proof {
                assert(args.deep_view() =~= before.push(command@));
                assert(before =~= Seq::<Seq<char>>::empty() + w.args.deep_view());
            }
            w.cmd.clone()
        },
        None => {
            proof {
                assert(args.deep_view() =~= Seq::<Seq<char>>::empty());
            }
            owned(command)
        },
    };
    append_strings(&mut args, config_jvm_args);
    append_strings(&mut args, &props.jvm_args);
    if let Some(class) = main_class {
        let ghost before = args.deep_view();
        args.push(class.clone());
        proof {
            assert(args.deep_view() =~= before + seq![class@]);
        }
    } else {
        proof {
            assert(args.deep_view() =~= args.deep_view() + Seq::<Seq<char>>::empty());
        }
    }
    append_strings(&mut args, &props.game_args);
    append_strings(&mut args, config_game_args);
    (program, args)
}

/// The text put in place of a secret.
pub open spec fn censor_text() -> Seq<char> {
    seq!['*', '*', '*']
}

/// The text with the marker put before each character and after the last one, which is
/// what replacing the empty text does.
pub open spec fn spec_insert_everywhere(s: Seq<char>, marker: Seq<char>) -> Seq<char>
    decreases s.len(),
{
    if s.len() == 0 {
        marker
    } else {
        marker + seq![s[0]] + spec_insert_everywhere(s.drop_first(), marker)
    }
}

/// An argument as it is shown: each occurrence of the secret is replaced.
pub open spec fn spec_censor(arg: Seq<char>, secret: Option<Seq<char>>) -> Seq<char> {
    match secret {
        None => arg,
        Some(t) => if t.len() == 0 {
            spec_insert_everywhere(arg, censor_text())
        } else {
            spec_replace(arg, t, censor_text())
        },
    }
}

fn insert_everywhere(s: &str, marker: &str) -> (r: String)
    ensures
        r@ == spec_insert_everywhere(s@, marker@),
{
    let cs = crate::text::chars_of(s);
    let mut out = String::new();
    let mut i: usize = 0;
    proof {
        assert(s@.skip(0) =~= s@);
        assert(out@ + spec_insert_everywhere(s@.skip(0), marker@) =~= spec_insert_everywhere(s@, marker@));
    }
    while i < cs.len()
        invariant
            cs@ == s@,
            i <= cs@.len(),
            out@ + spec_insert_everywhere(s@.skip(i as int), marker@) == spec_insert_everywhere(s@, marker@),
        decreases cs@.len() - i,
    {
        let ghost before = out@;
        string_push_str(&mut out, marker);
        string_push(&mut out, cs[i]);
        proof {
            assert(s@.skip(i as int).drop_first() =~= s@.skip(i + 1));
            assert(s@.skip(i as int)[0] == cs@[i as int]);
            assert(out@ + spec_insert_everywhere(s@.skip(i + 1), marker@) =~= before + spec_insert_everywhere(
                s@.skip(i as int),
                marker@,
            ));
        }
        i = i + 1;
    }
    proof {
        assert(s@.skip(cs@.len() as int) =~= Seq::<char>::empty());
    }
    string_push_str(&mut out, marker);
    out
}

/// The arguments of the launch command as they are shown: where secrets are censored,
/// the access token is replaced in each of them
pub fn censor_args(args: &Vec<String>, access_token: &Option<String>, censor_secrets: bool) -> (r: Vec<String>)
    ensures
        r.deep_view() == args.deep_view().map_values(
            |a: Seq<char>| spec_censor(a, if censor_secrets { crate::text::opt_str_view(*access_token) } else { None }),
        ),
{
    let ghost secret = if censor_secrets { crate::text::opt_str_view(*access_token) } else { None };
    let mut out: Vec<String> = Vec::new();
    let mut i: usize = 0;
    while i < args.len()
        invariant
            i <= args@.len(),
            secret == (if censor_secrets { crate::text::opt_str_view(*access_token) } else { None }),
            out.deep_view() == args.deep_view().take(i as int).map_values(|a: Seq<char>| spec_censor(a, secret)),
        decreases args@.len() - i,
    {
        let arg = &args[i];
        let shown = match access_token {
            Some(token) if censor_secrets => {
                if crate::text::chars_of(token.as_str()).len() == 0 {
                    insert_everywhere(arg.as_str(), "***")
                } else {
                    replace_all(arg.as_str(), token.as_str(), "***")
                }
            },
            _ => arg.clone(),
        };
        proof {
            reveal_strlit("***");
            assert("***"@ =~= censor_text());
        }
        let ghost before = out.deep_view();
        out.push(shown);
        proof {
            assert(out.deep_view() =~= before.push(spec_censor(arg@, secret)));
            assert(args.deep_view().take(i + 1) =~= args.deep_view().take(i as int).push(arg@));
        }
        i = i + 1;
    }
    proof {
        assert(args.deep_view().take(args@.len() as int) =~= args.deep_view());
    }
    out
}

} // verus!
