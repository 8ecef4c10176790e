//! The presentation layer: the report as styled lines of text. Each line is
//! a list of segments, each segment a semantic style and its text; how a
//! style is rendered (a terminal color, or nothing) is the caller's concern
//! and never affects what the report says.
use vstd::prelude::*;
use vstd::string::StringExecFns;

use crate::detect::{spec_detect, LockfileProbe, PackageManagerType};
use crate::json::json_parse;
use crate::manifest::{
    manifest_matches, manifest_schema, pairs_model, parse_manifest, Manifest, SchemaOutcome,
};

verus! {

/// The semantic styles the report uses.
#[derive(Clone, Copy, Debug, PartialEq, Eq, Structural)]
pub enum Style {
    /// The resolved project directory.
    Directory,
    /// The package-manager detection result.
    Manager,
    /// The header above the command list.
    Header,
    /// A command's name.
    CommandName,
    /// A command's command string.
    CommandText,
    /// A failure message.
    Failure,
    /// The detail line under a failure message.
    FailureDetail,
    /// The "nothing to inspect" notice.
    Warning,
}

/// One styled piece of a line.
#[derive(Clone, Debug, PartialEq, Eq)]
pub struct Segment {
    pub style: Style,
    pub text: String,
}

/// What a segment says: its style and its characters.
pub struct SegModel {
    pub style: Style,
    pub text: Seq<char>,
}

impl View for Segment {
    type V = SegModel;

    open spec fn view(&self) -> SegModel {
        SegModel { style: self.style, text: self.text@ }
    }
}

/// One line of the report.
#[derive(Clone, Debug, PartialEq, Eq)]
pub struct Line {
    pub parts: Vec<Segment>,
}

impl View for Line {
    type V = Seq<SegModel>;

    open spec fn view(&self) -> Seq<SegModel> {
        self.parts@.map_values(|s: Segment| s@)
    }
}

pub open spec fn seg(style: Style, text: Seq<char>) -> SegModel {
    SegModel { style, text }
}

/// What a list of lines says.
pub open spec fn lines_model(ls: Seq<Line>) -> Seq<Seq<SegModel>> {
    ls.map_values(|l: Line| l@)
}

/// A line of one segment.
fn line1(style: Style, text: String) -> (r: Line)
    ensures
        r@ == seq![seg(style, text@)],
{
    let ghost t = text@;
    let mut parts: Vec<Segment> = Vec::new();
    parts.push(Segment { style, text });
    let r = Line { parts };
    assert(r@ =~= seq![seg(style, t)]);
    r
}

/// A line of two segments.
fn line2(style1: Style, text1: String, style2: Style, text2: String) -> (r: Line)
    ensures
        r@ == seq![seg(style1, text1@), seg(style2, text2@)],
{
    let ghost t1 = text1@;
    let ghost t2 = text2@;
    let mut parts: Vec<Segment> = Vec::new();
    parts.push(Segment { style: style1, text: text1 });
    parts.push(Segment { style: style2, text: text2 });
    let r = Line { parts };
    assert(r@ =~= seq![seg(style1, t1), seg(style2, t2)]);
    r
}

/// The detection line: the found package manager's name with
/// ` lockfile found`, or `No package manager found`.
pub open spec fn spec_manager_line(pm: Option<PackageManagerType>) -> Seq<SegModel> {
    match pm {
        Some(k) => seq![seg(Style::Manager, k.spec_display_name() + " lockfile found"@)],
        None => seq![seg(Style::Manager, "No package manager found"@)],
    }
}

/// The detection line for the lockfiles found beside the manifest.
pub fn package_manager_line(probe: &LockfileProbe) -> (r: Line)
    ensures
        r@ == spec_manager_line(spec_detect(*probe)),
{
    match PackageManagerType::detect_from_path(probe) {
        Some(k) => {
            let mut t = k.display_name();
            t.append(" lockfile found");
            line1(Style::Manager, t)
        },
        None => line1(Style::Manager, "No package manager found".to_owned()),
    }
}

/// In a directory with no recognized lockfile, the detection line says
/// `No package manager found`.
pub proof fn lemma_no_lockfile_line(probe: LockfileProbe)
    requires
        !probe.package_lock,
        !probe.yarn_lock,
        !probe.pnpm_lock,
    ensures
        spec_manager_line(spec_detect(probe)) == seq![
            seg(Style::Manager, "No package manager found"@),
        ],
{
}

/// One command's line: its name, then its command string.
pub open spec fn spec_command_line(name: Seq<char>, command: Seq<char>) -> Seq<SegModel> {
    seq![seg(Style::CommandName, name), seg(Style::CommandText, command)]
}

/// The command report of a parsed manifest: a header and one line per
/// command, in the manifest's own order, or `No commands found` when it
/// declares none.
pub open spec fn spec_commands_lines(m: Manifest) -> Seq<Seq<SegModel>> {
    match m.scripts {
        Some(sv) => if sv@.len() > 0 {
            seq![seq![seg(Style::Header, "Available Commands"@)]] + pairs_model(sv@).map_values(
                |p: (Seq<char>, Seq<char>)| spec_command_line(p.0, p.1),
            )
        } else {
            seq![seq![seg(Style::Failure, "No commands found"@)]]
        },
        None => seq![seq![seg(Style::Failure, "No commands found"@)]],
    }
}

/// The command report of a parsed manifest.
pub fn manifest_command_lines(m: &Manifest) -> (r: Vec<Line>)
    ensures
        lines_model(r@) == spec_commands_lines(*m),
{
    let mut r: Vec<Line> = Vec::new();
    match &m.scripts {
        None => {
            r.push(line1(Style::Failure, "No commands found".to_owned()));
            assert(lines_model(r@) =~= spec_commands_lines(*m));
        },
        Some(sv) => {
            if sv.len() == 0 {
                r.push(line1(Style::Failure, "No commands found".to_owned()));
                assert(lines_model(r@) =~= spec_commands_lines(*m));
            } else {
                r.push(line1(Style::Header, "Available Commands".to_owned()));
                let n = sv.len();
                for i in 0..n
                    invariant
                        n == sv@.len(),
                        m.scripts matches Some(x) && x@ == sv@,
                        r@.len() == i + 1,
                        r@[0]@ == seq![seg(Style::Header, "Available Commands"@)],
                        forall|j: int|
                            0 <= j < i ==> (#[trigger] r@[j + 1])@ == spec_command_line(
                                sv@[j].0@,
                                sv@[j].1@,
                            ),
                {
                    let name = sv[i].0.clone();
                    let command = sv[i].1.clone();
                    r.push(line2(Style::CommandName, name, Style::CommandText, command));
                }
                proof {
                    let expected = spec_commands_lines(*m);
                    assert forall|k: int| 0 <= k < r@.len() implies lines_model(r@)[k]
                        == expected[k] by {
                        if k > 0 {
                            assert(r@[(k - 1) + 1]@ == spec_command_line(
                                sv@[k - 1].0@,
                                sv@[k - 1].1@,
                            ));
                            assert(pairs_model(sv@)[k - 1] == (sv@[k - 1].0@, sv@[k - 1].1@));
                        }
                    }
                    assert(lines_model(r@) =~= expected);
                }
            }
        },
    }
    r
}

/// The two lines shown for a manifest that is not valid against the schema:
/// the notice, then the diagnostic message.
pub open spec fn spec_invalid_lines(message: Seq<char>) -> Seq<Seq<SegModel>> {
    seq![
        seq![seg(Style::Failure, "package.json is not valid JSON"@)],
        seq![seg(Style::FailureDetail, message)],
    ]
}

/// The single line shown for a manifest that could not be read.
pub open spec fn spec_unreadable_lines() -> Seq<Seq<SegModel>> {
    seq![seq![seg(Style::Failure, "package.json could not be read"@)]]
}

/// What the command report shows for the manifest's content. `content` is
/// the file's text, or nothing when the file could not be read. On a manifest
/// the schema accepts, the lines list its commands in some order carrying
/// exactly the accepted name and scripts mapping.
pub open spec fn spec_command_report_ok(
    content: Option<Seq<char>>,
    lines: Seq<Seq<SegModel>>,
) -> bool {
    match content {
        None => lines == spec_unreadable_lines(),
        Some(text) => match json_parse(text) {
            Err(message) => lines == spec_invalid_lines(message),
            Ok(j) => match manifest_schema(j) {
                SchemaOutcome::Reject { message } => lines == spec_invalid_lines(message),
                SchemaOutcome::Accept { name, scripts } => exists|m: Manifest|
                    manifest_matches(m, name, scripts) && lines == spec_commands_lines(m),
            },
        },
    }
}

/// The command report: parse the content and list the manifest's commands,
/// or say why there are none to list.
pub fn command_lines(content: Option<&String>) -> (r: Vec<Line>)
    ensures
        spec_command_report_ok(
            match content {
                Some(s) => Some(s@),
                None => None,
            },
            lines_model(r@),
        ),
{
    let text = match content {
        Some(s) => s,
        None => {
            let mut r: Vec<Line> = Vec::new();
            r.push(line1(Style::Failure, "package.json could not be read".to_owned()));
            assert(lines_model(r@) =~= spec_unreadable_lines());
            return r;
        },
    };
    match parse_manifest(text.as_str()) {
        Ok(m) => {
            let r = manifest_command_lines(&m);
            proof {
                let outcome = json_parse(text@);
                match outcome {
                    Ok(j) => match manifest_schema(j) {
                        SchemaOutcome::Accept { name, scripts } => {
                            assert(manifest_matches(m, name, scripts) && lines_model(r@)
                                == spec_commands_lines(m));
                        },
                        SchemaOutcome::Reject { message } => {
                            assert(false);
                        },
                    },
                    Err(message) => {
                        assert(false);
                    },
                }
            }
            r
        },
        Err(e) => {
            let ghost message = e@;
            let mut r: Vec<Line> = Vec::new();
            r.push(line1(Style::Failure, "package.json is not valid JSON".to_owned()));
            r.push(line1(Style::FailureDetail, e));
            assert(lines_model(r@) =~= spec_invalid_lines(message));
            r
        },
    }
}

/// Inspect a found manifest's directory: the package-manager detection line,
/// then the command report.
pub fn inspect_dir(probe: &LockfileProbe, content: Option<&String>) -> (r: Vec<Line>)
    ensures
        r@.len() >= 1,
        r@[0]@ == spec_manager_line(spec_detect(*probe)),
        spec_command_report_ok(
            match content {
                Some(s) => Some(s@),
                None => None,
            },
            lines_model(r@).skip(1),
        ),
{
    let mut r: Vec<Line> = Vec::new();
    r.push(package_manager_line(probe));
    let mut rest = command_lines(content);
    let ghost rv = rest@;
    r.append(&mut rest);
    proof {
        assert(lines_model(r@).skip(1) =~= lines_model(rv));
    }
    r
}

/// Everything the caller gathered about a found manifest: the directory that
/// holds it, the lockfiles beside it, and its content when it could be read.
pub struct Inspection {
    pub dir: String,
    pub probe: LockfileProbe,
    pub content: Option<String>,
}

/// The single line shown when no ancestor holds a manifest.
pub open spec fn spec_not_found_lines() -> Seq<Seq<SegModel>> {
    seq![seq![seg(Style::Warning, "No package.json found"@)]]
}

/// The whole report. With no manifest found it is one warning line and
/// nothing more; with one found it is the resolved directory, the detection
/// line, and the command report.
pub fn report(found: Option<&Inspection>) -> (r: Vec<Line>)
    ensures
        (found is None ==> lines_model(r@) == spec_not_found_lines()),
        (found matches Some(f) ==> r@.len() >= 2 && r@[0]@ == seq![
            seg(Style::Directory, f.dir@),
        ] && r@[1]@ == spec_manager_line(spec_detect(f.probe)) && spec_command_report_ok(
            match f.content {
                Some(s) => Some(s@),
                None => None,
            },
            lines_model(r@).skip(2),
        )),
{
    match found {
        None => {
            let mut r: Vec<Line> = Vec::new();
            r.push(line1(Style::Warning, "No package.json found".to_owned()));
            assert(lines_model(r@) =~= spec_not_found_lines());
            r
        },
        Some(f) => {
            let mut r: Vec<Line> = Vec::new();
            r.push(line1(Style::Directory, f.dir.clone()));
            let mut rest = inspect_dir(&f.probe, f.content.as_ref());
            let ghost rv = rest@;
            r.append(&mut rest);
            proof {
                assert(lines_model(r@).skip(2) =~= lines_model(rv).skip(1));
            }
            r
        },
    }
}

} // verus!
