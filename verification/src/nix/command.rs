//! The build tool's command line and what it prints.

use crate::errors::BuildError;
use crate::nix::store::StorePath;
use crate::text::texts;
use vstd::prelude::*;
use vstd::string::*;

verus! {

/// One invocation of the build tool: the program and its arguments. The
/// host runs it without input, and reads what it prints on both streams
/// while it runs.
#[derive(Debug)]
pub struct NixCommand {
    pub program: String,
    pub args: Vec<String>,
}

/// The arguments with which every invocation begins.
pub open spec fn common_args() -> Seq<Seq<char>> {
    seq!["--extra-experimental-features"@, "nix-command flakes"@, "-vv"@]
}

/// The invocation of the build tool without a subcommand: flakes are
/// switched on, and so is verbose logging.
pub fn nix_command() -> (r: NixCommand)
    ensures
        r.program@ == "nix"@,
        texts(r.args@) =~= common_args(),
{
    let mut args: Vec<String> = Vec::new();
    args.push("--extra-experimental-features".to_owned());
    args.push("nix-command flakes".to_owned());
    args.push("-vv".to_owned());
    NixCommand { program: "nix".to_owned(), args }
}

impl NixCommand {
    /// Adds one argument at the end.
    pub fn arg(self, a: &str) -> (r: NixCommand)
        ensures
            r.program@ == self.program@,
            texts(r.args@) =~= texts(self.args@).push(a@),
    {
        let mut args = self.args;
        args.push(a.to_owned());
        NixCommand { program: self.program, args }
    }
}

/// Whether the build tool ran and ended with success: `Ok` exactly where
/// `status` is `Ok(true)`. A tool that could not be run, or waited for, fails
/// with the reason; one that ended otherwise fails as `NixCommandFailed`.
pub fn check_status(status: Result<bool, std::io::Error>) -> (r: Result<(), BuildError>)
    ensures
        match status {
            Ok(true) => r is Ok,
            Ok(false) => r == Err::<(), BuildError>(BuildError::NixCommandFailed),
            Err(e) => r == Err::<(), BuildError>(BuildError::IOError(e)),
        },
{
    match status {
        Ok(true) => Ok(()),
        Ok(false) => Err(BuildError::NixCommandFailed),
        Err(e) => Err(BuildError::IOError(e)),
    }
}

/// One record of the structured output of a dry build: a derivation and the
/// store paths of its outputs, by name. Where a name occurs twice in
/// `outputs`, the last entry counts.
#[derive(Debug)]
pub struct DrvResultInfo {
    pub drv_path: StorePath,
    pub outputs: Vec<(String, StorePath)>,
}

/// The outputs of a record as a map from the output's name to its path.
pub open spec fn outputs_map(entries: Seq<(String, StorePath)>) -> Map<Seq<char>, Seq<u8>>
    decreases entries.len(),
{
    if entries.len() == 0 {
        Map::empty()
    } else {
        outputs_map(entries.drop_last()).insert(entries.last().0@, entries.last().1@)
    }
}

impl DrvResultInfo {
    /// A record without outputs.
    pub fn new(drv_path: StorePath) -> (r: DrvResultInfo)
        ensures
            r.drv_path == drv_path,
            r.outputs@.len() == 0,
    {
        DrvResultInfo { drv_path, outputs: Vec::new() }
    }

    /// Sets the path of the output `name`.
    pub fn insert_output(&mut self, name: String, path: StorePath)
        ensures
            final(self).drv_path == old(self).drv_path,
            final(self).outputs@ == old(self).outputs@.push((name, path)),
            outputs_map(final(self).outputs@) == outputs_map(old(self).outputs@).insert(
                name@,
                path@,
            ),
    {
        let ghost before = self.outputs@;
        self.outputs.push((name, path));
        assert(self.outputs@.drop_last() =~= before);
    }

    /// The path of the output `name`, where the record has one.
    pub fn get_output(&self, name: &str) -> (r: Option<&StorePath>)
        ensures
            match r {
                Some(p) => outputs_map(self.outputs@).contains_key(name@) && p@ == outputs_map(
                    self.outputs@,
                )[name@],
                None => !outputs_map(self.outputs@).contains_key(name@),
            },
    {
        let key = name.to_owned();
        let mut i: usize = self.outputs.len();
        assert(self.outputs@.take(i as int) =~= self.outputs@);
        while i > 0
            invariant
                i <= self.outputs@.len(),
                key@ == name@,
                outputs_map(self.outputs@).contains_key(name@) == outputs_map(
                    self.outputs@.take(i as int),
                ).contains_key(name@),
                outputs_map(self.outputs@).contains_key(name@) ==> outputs_map(self.outputs@)[name@]
                    == outputs_map(self.outputs@.take(i as int))[name@],
            decreases i,
        {
            let ghost prefix = self.outputs@.take(i as int);
            assert(prefix.drop_last() =~= self.outputs@.take(i - 1));
            i -= 1;
            if self.outputs[i].0 == key {
                return Some(&self.outputs[i].1);
            }
        }
        None
    }
}

} // verus!
