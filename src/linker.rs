//! The linker adapter: one variant per family of system linkers, each turning
//! object files into a shared library through the same three steps.
//!
//! The adapter gathers the linker's command line; running it is left to the
//! caller, which hands back the outcome.

use vstd::prelude::*;

verus! {

/// The family of system linker a target uses.
#[derive(Clone, Copy, Debug, PartialEq, Eq, Structural)]
pub enum LinkerFlavor {
    /// GNU-style ELF linkers.
    Ld,
    /// The Mach-O linker of Apple platforms.
    Ld64,
    /// The Microsoft linker.
    Msvc,
}

/// A failure of the linking step, described by the linker's own words.
#[derive(Debug)]
pub struct LinkerError {
    pub message: String,
}

/// The command that links: which linker family to run, and its arguments.
#[derive(Debug)]
pub struct LinkCommand {
    pub flavor: LinkerFlavor,
    pub args: Vec<String>,
}

/// A linker of one flavor, collecting its arguments.
#[derive(Debug)]
pub struct Linker {
    pub flavor: LinkerFlavor,
    pub args: Vec<String>,
}

/// The arguments that ask a linker of `flavor` for a shared library at `out`.
pub open spec fn shared_object_args(flavor: LinkerFlavor, out: Seq<char>) -> Seq<Seq<char>> {
    match flavor {
        LinkerFlavor::Ld => seq![seq!['-', '-', 's', 'h', 'a', 'r', 'e', 'd'], seq!['-', 'o'], out],
        LinkerFlavor::Ld64 => seq![seq!['-', 'd', 'y', 'l', 'i', 'b'], seq!['-', 'o'], out],
        LinkerFlavor::Msvc => seq![
            seq!['/', 'D', 'L', 'L'],
            seq!['/', 'N', 'O', 'E', 'N', 'T', 'R', 'Y'],
            seq!['/', 'O', 'U', 'T', ':'] + out,
        ],
    }
}

impl Linker {
    /// The arguments gathered so far.
    pub open spec fn arg_view(&self) -> Seq<Seq<char>> {
        self.args@.map_values(|a: String| a@)
    }

    /// A linker of the given flavor, with no arguments yet.
    pub fn create_with_target(flavor: LinkerFlavor) -> (r: Linker)
        ensures
            r.flavor == flavor,
            r.arg_view() == Seq::<Seq<char>>::empty(),
    {
        let r = Linker { flavor, args: Vec::new() };
        assert(r.arg_view() =~= Seq::<Seq<char>>::empty());
        r
    }

    /// Adds an object file to link.
    pub fn add_object(&mut self, path: &str)
        ensures
            final(self).flavor == old(self).flavor,
            final(self).arg_view() == old(self).arg_view().push(path@),
    {
        self.args.push(String::from_str(path));
        assert(self.arg_view() =~= old(self).arg_view().push(path@));
    }

    /// Asks for a shared library at `path` holding the objects added so far.
    pub fn build_shared_object(&mut self, path: &str)
        ensures
            final(self).flavor == old(self).flavor,
            final(self).arg_view() == old(self).arg_view() + shared_object_args(
                old(self).flavor,
                path@,
            ),
    {
        let ghost start = self.arg_view();
        match self.flavor {
            LinkerFlavor::Ld => {
                let a = "--shared";
                let b = "-o";
                proof {
                    reveal_strlit("--shared");
                    reveal_strlit("-o");
                }
                assert(a@ =~= seq!['-', '-', 's', 'h', 'a', 'r', 'e', 'd']);
                assert(b@ =~= seq!['-', 'o']);
                self.args.push(String::from_str(a));
                self.args.push(String::from_str(b));
            },
            LinkerFlavor::Ld64 => {
                let a = "-dylib";
                let b = "-o";
                proof {
                    reveal_strlit("-dylib");
                    reveal_strlit("-o");
                }
                assert(a@ =~= seq!['-', 'd', 'y', 'l', 'i', 'b']);
                assert(b@ =~= seq!['-', 'o']);
                self.args.push(String::from_str(a));
                self.args.push(String::from_str(b));
            },
            LinkerFlavor::Msvc => {
                let a = "/DLL";
                let b = "/NOENTRY";
                proof {
                    reveal_strlit("/DLL");
                    reveal_strlit("/NOENTRY");
                }
                assert(a@ =~= seq!['/', 'D', 'L', 'L']);
                assert(b@ =~= seq!['/', 'N', 'O', 'E', 'N', 'T', 'R', 'Y']);
                self.args.push(String::from_str(a));
                self.args.push(String::from_str(b));
            },
        }
        match self.flavor {
            LinkerFlavor::Msvc => {
                let o = "/OUT:";
                proof {
                    reveal_strlit("/OUT:");
                }
                assert(o@ =~= seq!['/', 'O', 'U', 'T', ':']);
                let mut out = String::from_str(o);
                out.append(path);
                self.args.push(out);
            },
            _ => {
                self.args.push(String::from_str(path));
            },
        }
        assert(self.arg_view() =~= start + shared_object_args(self.flavor, path@));
    }

    /// Ends the linker's use and gives the command to run.
    pub fn finalize(self) -> (r: LinkCommand)
        ensures
            r.flavor == self.flavor,
            r.args@.map_values(|a: String| a@) == self.arg_view(),
    {
        LinkCommand { flavor: self.flavor, args: self.args }
    }
}

} // verus!
