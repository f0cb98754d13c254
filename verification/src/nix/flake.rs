//! A flake as the source of a system.

use crate::errors::{BuildError, UpdateError};
use crate::nix::command::{common_args, nix_command, outputs_map, DrvResultInfo, NixCommand};
use crate::nix::store::{path_text, path_to_text, StorePath};
use crate::outside::{json_object, json_object_text};
use crate::text::{contains_bytes, decimal, decimal_text, occurs_in, texts};
use vstd::prelude::*;
use vstd::string::*;
use vstd::utf8::encode_utf8;

verus! {

/// A flake, and the attribute of it that is the system to build.
#[derive(Debug)]
pub struct FlakeConfig {
    pub url: String,
    pub attribute: String,
}

/// The attribute under which a flake holds the system of the NixOS
/// configuration `config_name`.
pub open spec fn toplevel_attribute(config_name: Seq<char>) -> Seq<char> {
    "nixosConfigurations.\""@ + config_name + "\".config.system.build.toplevel"@
}

/// The installable that names the attribute `attribute` of the flake `url`.
pub open spec fn installable(url: Seq<char>, attribute: Seq<char>) -> Seq<char> {
    url + "#"@ + attribute
}

/// Whether a line of the build tool's log says that the lock file was
/// written anew: it holds the words `updating lock file`.
pub open spec fn reports_update(line: Seq<char>) -> bool {
    occurs_in(encode_utf8("updating lock file"@), encode_utf8(line))
}

/// Whether one of the lines says that the lock file was written anew.
pub open spec fn any_reports_update(lines: Seq<Seq<char>>) -> bool {
    exists|i: int| 0 <= i < lines.len() && reports_update(#[trigger] lines[i])
}

/// The names of the outputs of a record, in the order of its entries.
pub open spec fn output_names(entries: Seq<(String, StorePath)>) -> Seq<Seq<char>> {
    Seq::new(entries.len(), |i: int| entries[i].0@)
}

/// The paths of the outputs of a record as text, in the order of its
/// entries.
pub open spec fn output_paths(entries: Seq<(String, StorePath)>) -> Seq<Seq<char>> {
    Seq::new(entries.len(), |i: int| path_text(entries[i].1@))
}

/// What is said of a dry build that did not name exactly one derivation.
pub open spec fn unexpected_count(n: nat) -> Seq<char> {
    decimal_text(n) + " derivations"@
}

/// What is said of a dry build whose derivation has no output `out`: the
/// outputs that it has, as a JSON object.
pub open spec fn missing_out(entries: Seq<(String, StorePath)>) -> Seq<char> {
    "no output 'out', "@ + json_object_text(output_names(entries), output_paths(entries))
        + " instead"@
}

/// What the records of a dry build yield: the path of the output `out` of
/// the one derivation, or what was found instead.
pub open spec fn dry_build_spec(records: Seq<DrvResultInfo>) -> Result<Seq<u8>, Seq<char>> {
    if records.len() != 1 {
        Err(unexpected_count(records.len()))
    } else if outputs_map(records[0].outputs@).contains_key("out"@) {
        Ok(outputs_map(records[0].outputs@)["out"@])
    } else {
        Err(missing_out(records[0].outputs@))
    }
}

impl FlakeConfig {
    /// The attribute `attr` of the flake `url`.
    pub fn new(url: &str, attr: &str) -> (r: FlakeConfig)
        ensures
            r.url@ == url@,
            r.attribute@ == attr@,
    {
        FlakeConfig { url: url.to_owned(), attribute: attr.to_owned() }
    }

    /// The system of the NixOS configuration `config_name` of the flake
    /// `url`.
    pub fn from_url_and_config_name(url: &str, config_name: &str) -> (r: FlakeConfig)
        ensures
            r.url@ == url@,
            r.attribute@ == toplevel_attribute(config_name@),
    {
        let mut attribute = "nixosConfigurations.\"".to_owned();
        attribute.append(config_name);
        attribute.append("\".config.system.build.toplevel");
        FlakeConfig { url: url.to_owned(), attribute }
    }

    /// The installable that names what is to be built.
    pub fn get_installable(&self) -> (r: String)
        ensures
            r@ == installable(self.url@, self.attribute@),
    {
        let mut out = self.url.clone();
        out.append("#");
        out.append(self.attribute.as_str());
        out
    }

    /// The invocation that brings the flake's inputs up to date.
    pub fn update_command(&self) -> (r: NixCommand)
        ensures
            r.program@ == "nix"@,
            texts(r.args@) =~= common_args() + seq!["flake"@, "update"@, self.url@],
    {
        nix_command().arg("flake").arg("update").arg(self.url.as_str())
    }

    /// The invocation that builds the system. It is run in a fresh
    /// directory, in which it leaves the link to what it built.
    pub fn build_command(&self) -> (r: NixCommand)
        ensures
            r.program@ == "nix"@,
            texts(r.args@) =~= common_args() + seq![
                "build"@,
                installable(self.url@, self.attribute@),
            ],
    {
        let target = self.get_installable();
        nix_command().arg("build").arg(target.as_str())
    }

    /// The invocation that evaluates the system without building it and
    /// prints what it would build as JSON.
    pub fn dry_build_command(&self) -> (r: NixCommand)
        ensures
            r.program@ == "nix"@,
            texts(r.args@) =~= common_args() + seq![
                "build"@,
                "--json"@,
                "--dry-run"@,
                installable(self.url@, self.attribute@),
            ],
    {
        let target = self.get_installable();
        nix_command().arg("build").arg("--json").arg("--dry-run").arg(target.as_str())
    }

    /// Whether a line of the log of an update says that the inputs changed.
    pub fn line_reports_update(line: &str) -> (r: bool)
        ensures
            r == reports_update(line@),
    {
        contains_bytes(line.as_bytes(), "updating lock file".as_bytes())
    }

    /// The result of an update, from the lines that the build tool logged
    /// and from how it ended: whether the inputs changed.
    pub fn update_result(lines: &Vec<String>, status: Result<bool, std::io::Error>) -> (r: Result<
        bool,
        UpdateError,
    >)
        ensures
            match status {
                Ok(true) => r matches Ok(changed) && changed == any_reports_update(texts(lines@)),
                Ok(false) => r == Err::<bool, UpdateError>(UpdateError::NixCommandFailed),
                Err(e) => r == Err::<bool, UpdateError>(UpdateError::IOError(e)),
            },
    {
        let mut has_update = false;
        let mut i: usize = 0;
        while i < lines.len()
            invariant
                i <= lines@.len(),
                has_update == any_reports_update(texts(lines@).take(i as int)),
            decreases lines@.len() - i,
        {
            let here = FlakeConfig::line_reports_update(lines[i].as_str());
            proof {
                let before = texts(lines@).take(i as int);
                let after = texts(lines@).take(i + 1);
                assert(after[i as int] == lines@[i as int]@);
                assert forall|k: int| 0 <= k < before.len() implies before[k] == after[k] by {}
            }
            if here {
                has_update = true;
            }
            i += 1;
        }
        assert(texts(lines@).take(lines@.len() as int) =~= texts(lines@));
        match status {
            Ok(true) => Ok(has_update),
            Ok(false) => Err(UpdateError::NixCommandFailed),
            Err(e) => Err(UpdateError::IOError(e)),
        }
    }

    /// The result of a dry build, from what its structured output was read
    /// as: the store path of the system that a build would give.
    pub fn dry_build_result(parsed: Result<Vec<DrvResultInfo>, serde_json::Error>) -> (r: Result<
        StorePath,
        BuildError,
    >)
        ensures
            match parsed {
                Err(e) => r matches Err(BuildError::ParsingNixBuildJSONFailed(e2)) && e2 == e,
                Ok(records) => match dry_build_spec(records@) {
                    Ok(path) => r matches Ok(p) && p@ == path,
                    Err(text) => r matches Err(BuildError::DryRunProducedUnexpected(s)) && s@
                        == text,
                },
            },
    {
        let records = match parsed {
            Err(e) => {
                return Err(BuildError::ParsingNixBuildJSONFailed(e));
            },
            Ok(records) => records,
        };
        if records.len() != 1 {
            let mut said = decimal(records.len());
            said.append(" derivations");
            return Err(BuildError::DryRunProducedUnexpected(said));
        }
        match records[0].get_output("out") {
            Some(path) => Ok(path.clone()),
            None => {
                let entries = &records[0].outputs;
                let mut names: Vec<String> = Vec::new();
                let mut paths: Vec<String> = Vec::new();
                let mut i: usize = 0;
                while i < entries.len()
                    invariant
                        i <= entries@.len(),
                        texts(names@) =~= output_names(entries@).take(i as int),
                        texts(paths@) =~= output_paths(entries@).take(i as int),
                    decreases entries@.len() - i,
                {
                    names.push(entries[i].0.clone());
                    paths.push(path_to_text(entries[i].1.as_path()));
                    assert(output_names(entries@).take(i + 1) =~= output_names(entries@).take(
                        i as int,
                    ).push(entries@[i as int].0@));
                    assert(output_paths(entries@).take(i + 1) =~= output_paths(entries@).take(
                        i as int,
                    ).push(path_text(entries@[i as int].1@)));
                    i += 1;
                }
                assert(output_names(entries@).take(i as int) =~= output_names(entries@));
                assert(output_paths(entries@).take(i as int) =~= output_paths(entries@));
                let mut said = "no output 'out', ".to_owned();
                said.append(json_object(&names, &paths).as_str());
                said.append(" instead");
                Err(BuildError::DryRunProducedUnexpected(said))
            },
        }
    }
}

} // verus!
