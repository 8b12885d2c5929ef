//! How one frame is rendered: the arguments the external renderer is started
//! with, the file it is expected to leave behind, and what its exit means.

use vstd::prelude::*;
use vstd::string::StringExecFns;
use crate::errors::JobError;
use crate::errors::JobErrorView;
use crate::model::Season;
use crate::model::SeasonView;
use crate::model::WorkItem;
use crate::model::WorkItemView;
use crate::text::append_decimal;
use crate::text::decimal;
use crate::text::lemma_decimal_injective;
use crate::text::lemma_middle_determined;

verus! {

/// The views of a list of texts, in order.
pub open spec fn text_views(items: Seq<String>) -> Seq<Seq<char>> {
    Seq::new(items.len(), |i: int| items[i]@)
}

/// The renderer counts frames from 0, the work queue from 1.
pub open spec fn frame_index_of(work: WorkItemView) -> int {
    work.frame - 1
}

/// Where the renderer leaves the frame, relative to the working directory:
/// season, sequence and frame position, joined by dots, in the frames directory.
pub open spec fn frame_file(season: SeasonView, work: WorkItemView) -> Seq<char> {
    "frames\\"@ + season.name + "."@ + work.sequence + "."@ + decimal(work.frame as nat) + ".jpg"@
}

/// The prefix the renderer puts before the frame position in the names of
/// its output files, relative to the genome's directory.
pub open spec fn frame_prefix(season: SeasonView, work: WorkItemView) -> Seq<char> {
    "--prefix=..\\frames\\"@ + season.name + "."@ + work.sequence + "."@
}

/// The renderer's arguments, in order.
pub open spec fn renderer_args(genome: Seq<char>, season: SeasonView, work: WorkItemView) -> Seq<
    Seq<char>,
> {
    seq![
        "--in="@ + genome,
        "--format=jpg"@,
        "--opencl"@,
        "--priority=-2"@,
        "--quality="@ + decimal(season.quality as nat),
        "--sp"@,
        frame_prefix(season, work),
        "--supersample=2"@,
        "--frame="@ + decimal(frame_index_of(work) as nat),
        "--isaac_seed=fractorium"@,
    ]
}

/// One invocation of the renderer.
#[derive(Clone, Debug, PartialEq, Eq)]
pub struct RenderCommand {
    /// Arguments, in the order the renderer is given them.
    pub args: Vec<String>,
    /// The file the renderer writes.
    pub output: String,
}

pub struct RenderCommandView {
    pub args: Seq<Seq<char>>,
    pub output: Seq<char>,
}

impl View for RenderCommand {
    type V = RenderCommandView;

    open spec fn view(&self) -> RenderCommandView {
        RenderCommandView { args: text_views(self.args@), output: self.output@ }
    }
}

/// The invocation that renders `work` of `season` from the genome at `genome`.
pub open spec fn render_command(genome: Seq<char>, season: SeasonView, work: WorkItemView) -> RenderCommandView {
    RenderCommandView {
        args: renderer_args(genome, season, work),
        output: frame_file(season, work),
    }
}

/// The frame position as the renderer counts it.
pub fn frame_index(work: &WorkItem) -> (r: u32)
    requires
        work@.renderable(),
    ensures
        r == frame_index_of(work@),
        work.frame == 1 ==> r == 0,
{
    work.frame - 1
}

/// The file that holds the rendered frame of `work`.
pub fn output_file(season: &Season, work: &WorkItem) -> (r: String)
    ensures
        r@ == frame_file(season@, work@),
{
    let mut r = String::from_str("frames\\");
    r.append(season.name.as_str());
    r.append(".");
    r.append(work.sequence.as_str());
    r.append(".");
    append_decimal(&mut r, work.frame);
    r.append(".jpg");
    r
}

/// Builds the renderer invocation for one job.
pub fn render_frame(genome_file: &str, season: &Season, work: &WorkItem) -> (r: RenderCommand)
    requires
        work@.renderable(),
    ensures
        r@ == render_command(genome_file@, season@, work@),
{
    let mut input = String::from_str("--in=");
    input.append(genome_file);
    let mut quality = String::from_str("--quality=");
    append_decimal(&mut quality, season.quality);
    let mut prefix = String::from_str("--prefix=..\\frames\\");
    prefix.append(season.name.as_str());
    prefix.append(".");
    prefix.append(work.sequence.as_str());
    prefix.append(".");
    let mut frame = String::from_str("--frame=");
    append_decimal(&mut frame, frame_index(work));

    let mut args: Vec<String> = Vec::new();
    args.push(input);
    args.push(String::from_str("--format=jpg"));
    args.push(String::from_str("--opencl"));
    args.push(String::from_str("--priority=-2"));
    args.push(quality);
    args.push(String::from_str("--sp"));
    args.push(prefix);
    args.push(String::from_str("--supersample=2"));
    args.push(frame);
    args.push(String::from_str("--isaac_seed=fractorium"));
    let output = output_file(season, work);
    assert(text_views(args@) =~= renderer_args(genome_file@, season@, work@));
    RenderCommand { args, output }
}

/// Whether a run of the renderer produced the frame: it did when the process
/// was started and exited with code 0.
pub open spec fn render_succeeded(launched: bool, exit_code: Option<i32>) -> bool {
    launched && exit_code == Some(0i32)
}

/// Judges a finished run of the renderer. On success the result is the
/// frame's file; otherwise the error carries what the renderer printed.
pub fn render_result(
    command: RenderCommand,
    launched: bool,
    exit_code: Option<i32>,
    diagnostics: String,
) -> (r: Result<String, JobError>)
    ensures
        match r {
            Ok(path) => render_succeeded(launched, exit_code) && path@ == command@.output,
            Err(e) => !render_succeeded(launched, exit_code) && e@ == JobErrorView::Render(
                diagnostics@,
            ),
        },
{
    let clean = match exit_code {
        Some(code) => code == 0,
        None => false,
    };
    if launched && clean {
        Ok(command.output)
    } else {
        Err(JobError::Render(diagnostics))
    }
}

/// Within a season, two frames of a sequence that are written to the same
/// file are the same frame.
pub proof fn lemma_frame_file_names_one_frame(
    season: SeasonView,
    first: WorkItemView,
    second: WorkItemView,
)
    requires
        first.sequence == second.sequence,
        frame_file(season, first) == frame_file(season, second),
    ensures
        first.frame == second.frame,
{
    let before = "frames\\"@ + season.name + "."@ + first.sequence + "."@;
    lemma_middle_determined(
        before,
        decimal(first.frame as nat),
        decimal(second.frame as nat),
        ".jpg"@,
    );
    lemma_decimal_injective(first.frame as nat, second.frame as nat);
}

/// The file the renderer writes is the file its prefix and the frame
/// position name: the prefix without its option name and its step up to the
/// genome's parent directory, then the frame position and the extension.
pub proof fn lemma_output_follows_prefix(season: SeasonView, work: WorkItemView)
    ensures
        "--prefix=..\\"@ + frame_file(season, work) == frame_prefix(season, work) + decimal(
            work.frame as nat,
        ) + ".jpg"@,
{
    reveal_strlit("--prefix=..\\");
    reveal_strlit("frames\\");
    reveal_strlit("--prefix=..\\frames\\");
    assert("--prefix=..\\"@ + "frames\\"@ =~= "--prefix=..\\frames\\"@);
    assert("--prefix=..\\"@ + frame_file(season, work) =~= frame_prefix(season, work) + decimal(
        work.frame as nat,
    ) + ".jpg"@);
}

} // verus!
