//! The build subcommand: what to run inside the container.

use vstd::prelude::*;
use vstd::string::StringExecFns;

verus! {

/// Arguments to pass through to the compiler invocation.
#[derive(Debug, Default)]
pub struct Settings {
    pub cargo_args: Vec<String>,
}

/// Whether the pass-through arguments ask for a dev build.
pub fn dev_set(args: &Vec<String>) -> (r: bool)
    ensures
        r == args.deep_view().contains("--dev"@),
{
    contains_arg(args, "--dev")
}

/// Whether the pass-through arguments pick a target themselves.
pub fn target_set(args: &Vec<String>) -> (r: bool)
    ensures
        r == args.deep_view().contains("--target"@),
{
    contains_arg(args, "--target")
}

fn contains_arg(args: &Vec<String>, wanted: &str) -> (r: bool)
    ensures
        r == args.deep_view().contains(wanted@),
{
    let mut i: usize = 0;
    while i < args.len()
        invariant
            i <= args.len(),
            forall|j: int| 0 <= j < i ==> args.deep_view()[j] != wanted@,
        decreases args.len() - i,
    {
        if crate::codec::str_eq(args[i].as_str(), wanted) {
            assert(args.deep_view()[i as int] == wanted@);
            return true;
        }
        i = i + 1;
    }
    assert(!args.deep_view().contains(wanted@)) by {
        assert(forall|j: int|
            0 <= j < args.deep_view().len() ==> args.deep_view()[j] != wanted@);
    }
    false
}

/// The compiler invocation to run for these settings: a release build unless
/// a dev build was asked for, on the given target unless one was picked, and
/// the pass-through arguments last.
pub fn command_for(settings: &Settings, target_triple: &str) -> (r: Vec<String>)
    ensures
        r.deep_view() == seq!["cargo"@, "build"@] + (if settings.cargo_args.deep_view().contains(
            "--dev"@,
        ) {
            Seq::<Seq<char>>::empty()
        } else {
            seq!["--release"@]
        }) + (if settings.cargo_args.deep_view().contains("--target"@) {
            Seq::<Seq<char>>::empty()
        } else {
            seq!["--target"@, target_triple@]
        }) + settings.cargo_args.deep_view(),
{
    let mut command: Vec<String> = Vec::new();
    command.push(String::from_str("cargo"));
    command.push(String::from_str("build"));
    if !dev_set(&settings.cargo_args) {
        command.push(String::from_str("--release"));
    }
    if !target_set(&settings.cargo_args) {
        command.push(String::from_str("--target"));
        command.push(target_triple.to_owned());
    }
    let ghost built = command.deep_view();
    let mut i: usize = 0;
    while i < settings.cargo_args.len()
        invariant
            i <= settings.cargo_args.len(),
            command.deep_view() =~= built + settings.cargo_args.deep_view().take(i as int),
        decreases settings.cargo_args.len() - i,
    {
        let arg = settings.cargo_args[i].clone();
        let ghost old_dv = command.deep_view();
        let ghost argv = settings.cargo_args.deep_view()[i as int];
        proof {
            assert(arg@ == argv);
        }
        command.push(arg);
        proof {
            assert(command.deep_view() =~= old_dv.push(argv));
            assert(old_dv.push(argv) =~= built + settings.cargo_args.deep_view().take(i + 1));
        }
        i = i + 1;
    }
    proof {
        assert(settings.cargo_args.deep_view().take(settings.cargo_args.len() as int)
            =~= settings.cargo_args.deep_view());
        assert(command.deep_view() =~= seq!["cargo"@, "build"@] + (
        if settings.cargo_args.deep_view().contains("--dev"@) {
            Seq::<Seq<char>>::empty()
        } else {
            seq!["--release"@]
        }) + (if settings.cargo_args.deep_view().contains("--target"@) {
            Seq::<Seq<char>>::empty()
        } else {
            seq!["--target"@, target_triple@]
        }) + settings.cargo_args.deep_view());
    }
    command
}

} // verus!
