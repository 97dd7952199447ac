//! Results as lines of text, for a reader at a console.

use vstd::prelude::*;
use crate::documents::name_views;
use crate::generic::MaybeRfc2822DateTime;
use crate::servers::{
    backend_name,
    server_type_name,
    PopulatedRepositoryOrReplica,
    PopulatedServer,
    ServerBackendType,
    ServerMetadata,
};
use crate::text::concat2;

verus! {

/// The digit `d` as text.
pub open spec fn digit_text(d: nat) -> Seq<char> {
    if d == 0 {
        "0"@
    } else if d == 1 {
        "1"@
    } else if d == 2 {
        "2"@
    } else if d == 3 {
        "3"@
    } else if d == 4 {
        "4"@
    } else if d == 5 {
        "5"@
    } else if d == 6 {
        "6"@
    } else if d == 7 {
        "7"@
    } else if d == 8 {
        "8"@
    } else {
        "9"@
    }
}

/// The number in decimal digits, without leading zeros.
pub open spec fn decimal_text(n: nat) -> Seq<char>
    decreases n,
{
    if n < 10 {
        digit_text(n)
    } else {
        decimal_text(n / 10) + digit_text(n % 10)
    }
}

/// The number in decimal digits, with a minus sign where it is negative.
pub open spec fn signed_decimal_text(i: int) -> Seq<char> {
    if i >= 0 {
        decimal_text(i as nat)
    } else {
        "-"@ + decimal_text((-i) as nat)
    }
}

fn digit(d: u64) -> (text: &'static str)
    requires
        d < 10,
    ensures
        text@ == digit_text(d as nat),
{
    if d == 0 {
        "0"
    } else if d == 1 {
        "1"
    } else if d == 2 {
        "2"
    } else if d == 3 {
        "3"
    } else if d == 4 {
        "4"
    } else if d == 5 {
        "5"
    } else if d == 6 {
        "6"
    } else if d == 7 {
        "7"
    } else if d == 8 {
        "8"
    } else {
        "9"
    }
}

/// The number in decimal digits.
pub fn decimal(n: u64) -> (text: String)
    ensures
        text@ == decimal_text(n as nat),
    decreases n,
{
    if n < 10 {
        digit(n).to_owned()
    } else {
        let head = decimal(n / 10);
        concat2(head.as_str(), digit(n % 10))
    }
}

/// The number in decimal digits, with its sign where it is negative.
pub fn signed_decimal(i: i32) -> (text: String)
    ensures
        text@ == signed_decimal_text(i as int),
{
    if i >= 0 {
        decimal(i as u64)
    } else {
        let magnitude: u64 = (-(i as i64)) as u64;
        let digits = decimal(magnitude);
        concat2("-", digits.as_str())
    }
}

/// The text of a version.
///
/// Trusted: the body calls `to_string` on a `semver::Version`. The contract
/// claims nothing of the text.
#[verifier::external_body]
pub(crate) fn version_text(version: &semver::Version) -> (text: String) {
    version.to_string()
}

/// The text of a JSON value.
///
/// Trusted: the body calls `to_string` on a `serde_json::Value`. The contract
/// claims nothing of the text.
#[verifier::external_body]
pub(crate) fn value_text(value: &serde_json::Value) -> (text: String) {
    value.to_string()
}

/// A labelled line where there is a value, no line where there is none.
pub open spec fn optional_line(label: Seq<char>, value: Option<Seq<char>>) -> Seq<Seq<char>> {
    match value {
        Some(text) => seq![label + text],
        None => Seq::empty(),
    }
}

/// The view of an optional text.
pub open spec fn text_of(value: Option<String>) -> Option<Seq<char>> {
    match value {
        Some(text) => Some(text@),
        None => None,
    }
}

/// The time as a report shows it.
pub open spec fn time_text(time: MaybeRfc2822DateTime) -> Seq<char> {
    match time.0 {
        Some(text) => text@,
        None => "None"@,
    }
}

fn push_line(lines: &mut Vec<String>, line: String)
    ensures
        name_views(final(lines)@) == name_views(old(lines)@).push(line@),
{
    lines.push(line);
    assert(name_views(lines@) =~= name_views(old(lines)@).push(line@));
}

fn push_optional(lines: &mut Vec<String>, label: &str, value: &Option<String>)
    ensures
        name_views(final(lines)@) == name_views(old(lines)@) + optional_line(
            label@,
            text_of(*value),
        ),
{
    match value {
        Some(text) => {
            push_line(lines, concat2(label, text.as_str()));
            assert(name_views(lines@) =~= name_views(old(lines)@) + optional_line(
                label@,
                text_of(*value),
            ));
        },
        None => {
            assert(name_views(lines@) =~= name_views(old(lines)@) + optional_line(
                label@,
                text_of(*value),
            ));
        },
    }
}

impl MaybeRfc2822DateTime {
    /// The time as a report shows it: its text, or `None`.
    pub fn text(&self) -> (text: String)
        ensures
            text@ == time_text(*self),
    {
        match &self.0 {
            Some(text) => text.clone(),
            None => "None".to_owned(),
        }
    }
}

impl ServerMetadata {
    /// The lines of the metadata block: its heading, then one line for each
    /// field that is known, in a fixed order. `version` and `custom` are the
    /// texts of the two fields that only their own crates can write out.
    pub open spec fn spec_report(
        &self,
        version: Option<Seq<char>>,
        custom: Option<Seq<char>>,
    ) -> Seq<Seq<char>> {
        seq!["Metadata:"@] + optional_line(
            "  Schema Version: "@,
            match self.schema_version {
                Some(schema) => Some(decimal_text(schema as nat)),
                None => None,
            },
        ) + optional_line("  CVMFS Version: "@, version) + optional_line(
            "  Last GeoDB Update: "@,
            text_of(self.last_geodb_update.0),
        ) + optional_line("  OS Version ID: "@, text_of(self.os_version_id)) + optional_line(
            "  OS Pretty Name: "@,
            text_of(self.os_pretty_name),
        ) + optional_line("  OS ID: "@, text_of(self.os_id)) + optional_line(
            "  Administrator: "@,
            text_of(self.administrator),
        ) + optional_line("  Email: "@, text_of(self.email)) + optional_line(
            "  Organisation: "@,
            text_of(self.organisation),
        ) + optional_line("  Custom: "@, custom)
    }

    /// The lines of the metadata block, with the texts of the version and of
    /// the custom value as given.
    pub fn report_with(&self, version: Option<String>, custom: Option<String>) -> (lines: Vec<
        String,
    >)
        ensures
            name_views(lines@) == self.spec_report(text_of(version), text_of(custom)),
    {
        let mut lines: Vec<String> = Vec::new();
        assert(name_views(lines@) =~= Seq::<Seq<char>>::empty());
        push_line(&mut lines, "Metadata:".to_owned());
        assert(name_views(lines@) =~= seq!["Metadata:"@]);
        let schema = match self.schema_version {
            Some(schema) => Some(decimal(schema as u64)),
            None => None,
        };
        push_optional(&mut lines, "  Schema Version: ", &schema);
        push_optional(&mut lines, "  CVMFS Version: ", &version);
        push_optional(&mut lines, "  Last GeoDB Update: ", &self.last_geodb_update.0);
        push_optional(&mut lines, "  OS Version ID: ", &self.os_version_id);
        push_optional(&mut lines, "  OS Pretty Name: ", &self.os_pretty_name);
        push_optional(&mut lines, "  OS ID: ", &self.os_id);
        push_optional(&mut lines, "  Administrator: ", &self.administrator);
        push_optional(&mut lines, "  Email: ", &self.email);
        push_optional(&mut lines, "  Organisation: ", &self.organisation);
        push_optional(&mut lines, "  Custom: ", &custom);
        lines
    }

    /// The lines of the metadata block. A version or a custom value that is
    /// known gets its line, with the text that its own crate writes for it.
    pub fn report(&self) -> (lines: Vec<String>)
        ensures
            exists|version: Option<Seq<char>>, custom: Option<Seq<char>>|
                (version is Some <==> self.cvmfs_version is Some) && (custom is Some
                    <==> self.custom is Some) && name_views(lines@) == #[trigger] self.spec_report(
                    version,
                    custom,
                ),
    {
        let version = match &self.cvmfs_version {
            Some(version) => Some(version_text(version)),
            None => None,
        };
        let custom = match &self.custom {
            Some(value) => Some(value_text(value)),
            None => None,
        };
        let ghost version_view = text_of(version);
        let ghost custom_view = text_of(custom);
        let lines = self.report_with(version, custom);
        assert(name_views(lines@) == self.spec_report(version_view, custom_view));
        lines
    }
}

impl PopulatedRepositoryOrReplica {
    /// The lines of a repository's block.
    pub open spec fn spec_report(&self) -> Seq<Seq<char>> {
        seq![
            " Name: "@ + self.name@,
            "  Last Snapshot: "@ + time_text(self.last_snapshot),
            "  Last GC: "@ + time_text(self.last_gc),
            "  Revision: "@ + signed_decimal_text(self.manifest.s as int),
        ]
    }

    /// The lines of this repository's block: its name, the times of its last
    /// snapshot and garbage collection, and its revision.
    pub fn report(&self) -> (lines: Vec<String>)
        ensures
            name_views(lines@) == self.spec_report(),
    {
        let mut lines: Vec<String> = Vec::new();
        lines.push(concat2(" Name: ", self.name.as_str()));
        lines.push(concat2("  Last Snapshot: ", self.last_snapshot.text().as_str()));
        lines.push(concat2("  Last GC: ", self.last_gc.text().as_str()));
        lines.push(concat2("  Revision: ", signed_decimal(self.manifest.s).as_str()));
        assert(name_views(lines@) =~= self.spec_report());
        lines
    }
}

/// The blocks of the repositories, each under a line with its name.
pub open spec fn repositories_report(repositories: Seq<PopulatedRepositoryOrReplica>) -> Seq<
    Seq<char>,
>
    decreases repositories.len(),
{
    if repositories.len() == 0 {
        Seq::empty()
    } else {
        repositories_report(repositories.drop_last()) + seq!["  "@ + repositories.last().name@]
            + repositories.last().spec_report()
    }
}

impl PopulatedServer {
    /// The lines before the metadata: the server, its type, its configured
    /// backend, and the detected one where it was to be detected.
    pub open spec fn spec_heading(&self) -> Seq<Seq<char>> {
        seq![
            "Server: "@ + self.hostname@,
            "Type: "@ + server_type_name(self.server_type),
            "Backend: "@ + backend_name(self.backend_type),
        ] + if self.backend_type == ServerBackendType::AutoDetect {
            seq!["Detected Backend: "@ + backend_name(self.backend_detected)]
        } else {
            Seq::empty()
        }
    }

    /// The whole report: the heading, the metadata block or a line that says
    /// why there is none, and the repositories.
    pub open spec fn spec_report(
        &self,
        version: Option<Seq<char>>,
        custom: Option<Seq<char>>,
    ) -> Seq<Seq<char>> {
        self.spec_heading() + if self.backend_detected != ServerBackendType::S3 {
            self.metadata.spec_report(version, custom)
        } else {
            seq!["Metadata: Not vailable for S3 servers."@]
        } + seq!["Repositories:"@] + repositories_report(self.repositories@)
    }

    /// The report of this server, line by line.
    pub fn report(&self) -> (lines: Vec<String>)
        ensures
            exists|version: Option<Seq<char>>, custom: Option<Seq<char>>| name_views(lines@)
                == #[trigger] self.spec_report(version, custom),
    {
        let mut lines: Vec<String> = Vec::new();
        lines.push(concat2("Server: ", self.hostname.0.as_str()));
        lines.push(concat2("Type: ", self.server_type.name()));
        lines.push(concat2("Backend: ", self.backend_type.name()));
        if self.shows_detected_backend() {
            lines.push(concat2("Detected Backend: ", self.backend_detected.name()));
        }
        assert(name_views(lines@) =~= self.spec_heading());
        let ghost mut version: Option<Seq<char>> = None;
        let ghost mut custom: Option<Seq<char>> = None;
        if self.shows_metadata() {
            let mut block = self.metadata.report();
            proof {
                let (v, c) = choose|v: Option<Seq<char>>, c: Option<Seq<char>>|
                    name_views(block@) == #[trigger] self.metadata.spec_report(v, c);
                version = v;
                custom = c;
            }
            let ghost before = lines@;
            let ghost added = block@;
            lines.append(&mut block);
            assert(name_views(lines@) =~= name_views(before) + name_views(added));
        } else {
            let ghost before = lines@;
            lines.push("Metadata: Not vailable for S3 servers.".to_owned());
            assert(name_views(lines@) =~= name_views(before) + seq![
                "Metadata: Not vailable for S3 servers."@,
            ]);
        }
        let ghost before = lines@;
        lines.push("Repositories:".to_owned());
        assert(name_views(lines@) =~= name_views(before) + seq!["Repositories:"@]);
        let ghost top = name_views(lines@);
        assert(top + repositories_report(self.repositories@.take(0)) =~= top);
        let mut i: usize = 0;
        while i < self.repositories.len()
            invariant
                i <= self.repositories@.len(),
                name_views(lines@) == top + repositories_report(self.repositories@.take(i as int)),
            decreases self.repositories@.len() - i,
        {
            let repo = &self.repositories[i];
            let ghost before = lines@;
            lines.push(concat2("  ", repo.name.as_str()));
            let mut block = repo.report();
            let ghost added = block@;
            lines.append(&mut block);
            proof {
                let done = self.repositories@.take(i + 1);
                assert(done.drop_last() =~= self.repositories@.take(i as int));
                assert(done.last() == *repo);
                assert(name_views(lines@) =~= name_views(before) + seq!["  "@ + repo.name@]
                    + name_views(added));
                assert(name_views(lines@) =~= top + repositories_report(done));
            }
            i += 1;
        }
        assert(self.repositories@.take(i as int) =~= self.repositories@);
        assert(name_views(lines@) == self.spec_report(version, custom));
        lines
    }
}

} // verus!
