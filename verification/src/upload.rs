//! Submission of a rendered frame: the multipart form that is posted to the
//! coordinator, and what the coordinator's answer means.

use vstd::prelude::*;
use vstd::string::StringExecFns;
use crate::errors::JobError;
use crate::errors::JobErrorView;
use crate::model::Config;
use crate::model::ConfigView;
use crate::model::Season;
use crate::model::SeasonView;
use crate::model::WorkItem;
use crate::model::WorkItemView;
use crate::text::append_decimal;
use crate::text::decimal;
use crate::text::lemma_decimal_digits;
use crate::text::lemma_decimal_injective;
use crate::text::lemma_middle_determined;

verus! {

#[verifier::external_type_specification]
#[verifier::external_body]
pub struct ExJsonError(serde_json::Error);

/// The JSON string literal that stands for `text`, quotes included, or
/// nothing where the encoder reports an error.
pub uninterp spec fn json_string(text: Seq<char>) -> Option<Seq<char>>;

/// Encodes a text as a JSON string literal with `serde_json::to_string`. The
/// encoder writes to memory and reads nothing but `text`, so the outcome
/// depends on `text` alone.
#[verifier::external_body]
fn quote_json(text: &str) -> (r: Result<String, serde_json::Error>)
    ensures
        match r {
            Ok(quoted) => json_string(text@) == Some(quoted@),
            Err(_) => json_string(text@) is None,
        },
{
    serde_json::to_string(text)
}

/// A work item as a JSON object, given its sequence as a JSON string
/// literal: the members in the order sequence, frame, genome_id, genome2_id,
/// without white space.
pub open spec fn work_set_text(quoted_sequence: Seq<char>, work: WorkItemView) -> Seq<char> {
    "{\"sequence\":"@ + quoted_sequence + ",\"frame\":"@ + decimal(work.frame as nat)
        + ",\"genome_id\":"@ + decimal(work.genome_id as nat) + ",\"genome2_id\":"@ + decimal(
        work.genome2_id as nat,
    ) + "}"@
}

/// The error that abandons a job whose sequence has no JSON form.
pub open spec fn unencodable() -> JobErrorView {
    JobErrorView::Upload("work item cannot be encoded"@)
}

/// The work item as the upload describes it, or the error in its place.
pub open spec fn work_set_of(work: WorkItemView) -> Result<Seq<char>, JobErrorView> {
    match json_string(work.sequence) {
        Some(quoted) => Ok(work_set_text(quoted, work)),
        None => Err(unencodable()),
    }
}

/// One named part of a form.
#[derive(Clone, Debug, PartialEq, Eq)]
pub struct Field {
    pub name: String,
    pub value: String,
}

pub struct FieldView {
    pub name: Seq<char>,
    pub value: Seq<char>,
}

impl View for Field {
    type V = FieldView;

    open spec fn view(&self) -> FieldView {
        FieldView { name: self.name@, value: self.value@ }
    }
}

/// The views of a list of fields, in order.
pub open spec fn field_views(fields: Seq<Field>) -> Seq<FieldView> {
    Seq::new(fields.len(), |i: int| fields[i]@)
}

/// A multipart POST.
#[derive(Clone, Debug, PartialEq, Eq)]
pub struct UploadForm {
    pub url: String,
    /// The part that carries a file's content; its value is the file's path.
    pub file: Field,
    /// The text parts, in order.
    pub texts: Vec<Field>,
}

pub struct UploadFormView {
    pub url: Seq<char>,
    pub file: FieldView,
    pub texts: Seq<FieldView>,
}

impl View for UploadForm {
    type V = UploadFormView;

    open spec fn view(&self) -> UploadFormView {
        UploadFormView { url: self.url@, file: self.file@, texts: field_views(self.texts@) }
    }
}

/// Address of the endpoint that takes finished frames.
pub open spec fn upload_url(config: ConfigView) -> Seq<char> {
    config.server + "/api/upload"@
}

/// The form that submits the frame in `frame_file` for `work` of `season`,
/// with the work item encoded as `work_set`.
pub open spec fn upload_form(
    frame_file: Seq<char>,
    config: ConfigView,
    season: SeasonView,
    work_set: Seq<char>,
) -> UploadFormView {
    UploadFormView {
        url: upload_url(config),
        file: FieldView { name: "file"@, value: frame_file },
        texts: seq![
            FieldView { name: "apikey"@, value: config.apikey },
            FieldView { name: "work_set"@, value: work_set },
            FieldView { name: "branch"@, value: season.name },
            FieldView { name: "gpu"@, value: "true"@ },
        ],
    }
}

/// The form for a job, or the error that abandons it.
pub open spec fn upload_of(
    frame_file: Seq<char>,
    config: ConfigView,
    season: SeasonView,
    work: WorkItemView,
) -> Result<UploadFormView, JobErrorView> {
    match work_set_of(work) {
        Ok(work_set) => Ok(upload_form(frame_file, config, season, work_set)),
        Err(e) => Err(e),
    }
}

/// The view of a text or of the error in its place.
pub open spec fn text_result_view(r: Result<String, JobError>) -> Result<Seq<char>, JobErrorView> {
    match r {
        Ok(text) => Ok(text@),
        Err(e) => Err(e@),
    }
}

/// The view of a form or of the error in its place.
pub open spec fn form_view(r: Result<UploadForm, JobError>) -> Result<UploadFormView, JobErrorView> {
    match r {
        Ok(form) => Ok(form@),
        Err(e) => Err(e@),
    }
}

/// Writes a work item as a JSON object around its already quoted sequence.
pub fn work_set_with(quoted_sequence: &str, work: &WorkItem) -> (r: String)
    ensures
        r@ == work_set_text(quoted_sequence@, work@),
{
    let mut r = String::from_str("{\"sequence\":");
    r.append(quoted_sequence);
    r.append(",\"frame\":");
    append_decimal(&mut r, work.frame);
    r.append(",\"genome_id\":");
    append_decimal(&mut r, work.genome_id);
    r.append(",\"genome2_id\":");
    append_decimal(&mut r, work.genome2_id);
    r.append("}");
    r
}

/// Writes a work item as the JSON object by which the coordinator matches an
/// upload to the job it handed out.
pub fn work_set(work: &WorkItem) -> (r: Result<String, JobError>)
    ensures
        text_result_view(r) == work_set_of(work@),
{
    match quote_json(work.sequence.as_str()) {
        Ok(quoted) => Ok(work_set_with(quoted.as_str(), work)),
        Err(_) => Err(JobError::Upload(String::from_str("work item cannot be encoded"))),
    }
}

/// Builds the form around an encoded work item.
pub fn upload_form_with(frame_file: &str, config: &Config, season: &Season, work_set: String) -> (r:
    UploadForm)
    ensures
        r@ == upload_form(frame_file@, config@, season@, work_set@),
{
    let mut url = config.server.clone();
    url.append("/api/upload");
    let file = Field { name: String::from_str("file"), value: String::from_str(frame_file) };
    let mut texts: Vec<Field> = Vec::new();
    texts.push(Field { name: String::from_str("apikey"), value: config.apikey.clone() });
    texts.push(Field { name: String::from_str("work_set"), value: work_set });
    texts.push(Field { name: String::from_str("branch"), value: season.name.clone() });
    texts.push(Field { name: String::from_str("gpu"), value: String::from_str("true") });
    assert(field_views(texts@) =~= upload_form(frame_file@, config@, season@, work_set@).texts);
    UploadForm { url, file, texts }
}

/// Builds the submission of one rendered frame.
pub fn upload_frame(frame_file: &str, config: &Config, season: &Season, work: &WorkItem) -> (r:
    Result<UploadForm, JobError>)
    ensures
        form_view(r) == upload_of(frame_file@, config@, season@, work@),
{
    match work_set(work) {
        Ok(encoded) => Ok(upload_form_with(frame_file, config, season, encoded)),
        Err(e) => Err(e),
    }
}

/// Whether the coordinator took the frame: the request got through and the
/// status is in the 2xx range.
pub open spec fn upload_accepted(sent: bool, status: u16) -> bool {
    sent && 200 <= status <= 299
}

/// What an upload came to, from what the coordinator answered.
pub open spec fn upload_outcome(sent: bool, status: u16, body: Seq<char>) -> Result<
    Seq<char>,
    JobErrorView,
> {
    if upload_accepted(sent, status) {
        Ok(body)
    } else {
        Err(JobErrorView::Upload(body))
    }
}

/// Judges the answer to an upload. `body` is what the coordinator said, or
/// what went wrong on the way where `sent` is false. Either way it is handed
/// on: as the acknowledgement, or inside the error.
pub fn upload_result(sent: bool, status: u16, body: String) -> (r: Result<String, JobError>)
    ensures
        text_result_view(r) == upload_outcome(sent, status, body@),
{
    if sent && 200 <= status && status <= 299 {
        Ok(body)
    } else {
        Err(JobError::Upload(body))
    }
}

/// Whether a text holds decimal digits only.
pub open spec fn all_digits(text: Seq<char>) -> bool {
    forall|i: int| 0 <= i < text.len() ==> '0' <= #[trigger] text[i] <= '9'
}

/// Whether a text begins with a character that is no decimal digit.
pub open spec fn starts_without_digit(text: Seq<char>) -> bool {
    text.len() > 0 && !('0' <= text[0] <= '9')
}

/// A run of digits ends where the first other character stands: two texts
/// that agree, each a run of digits before a rest that begins otherwise,
/// agree in the run and in the rest.
pub proof fn lemma_digits_end_at_delimiter(
    first: Seq<char>,
    first_rest: Seq<char>,
    second: Seq<char>,
    second_rest: Seq<char>,
)
    requires
        all_digits(first),
        all_digits(second),
        starts_without_digit(first_rest),
        starts_without_digit(second_rest),
        first + first_rest == second + second_rest,
    ensures
        first == second,
        first_rest == second_rest,
{
    let x = first + first_rest;
    let y = second + second_rest;
    if first.len() < second.len() {
        assert(x[first.len() as int] == first_rest[0]);
        assert(y[first.len() as int] == second[first.len() as int]);
    } else if second.len() < first.len() {
        assert(y[second.len() as int] == second_rest[0]);
        assert(x[second.len() as int] == first[second.len() as int]);
    }
    assert(first.len() == second.len());
    assert forall|i: int| 0 <= i < first.len() implies first[i] == second[i] by {
        assert(x[i] == first[i]);
        assert(y[i] == second[i]);
    }
    assert(first =~= second);
    assert(x.len() == first.len() + first_rest.len());
    assert(y.len() == second.len() + second_rest.len());
    assert forall|i: int| 0 <= i < first_rest.len() implies first_rest[i] == second_rest[i] by {
        assert(x[first.len() + i] == first_rest[i]);
        assert(y[second.len() + i] == second_rest[i]);
    }
    assert(first_rest =~= second_rest);
}

/// The last number of a work item's JSON form, with the closing brace.
pub open spec fn genome2_part(work: WorkItemView) -> Seq<char> {
    decimal(work.genome2_id as nat) + "}"@
}

/// A work item's JSON form from the first genome on.
pub open spec fn genome_part(work: WorkItemView) -> Seq<char> {
    decimal(work.genome_id as nat) + (",\"genome2_id\":"@ + genome2_part(work))
}

/// A work item's JSON form from the frame on.
pub open spec fn frame_part(work: WorkItemView) -> Seq<char> {
    decimal(work.frame as nat) + (",\"genome_id\":"@ + genome_part(work))
}

/// A work item's JSON form is its quoted sequence under its name, then its
/// numbers.
pub proof fn lemma_work_set_parts(quoted_sequence: Seq<char>, work: WorkItemView)
    ensures
        work_set_text(quoted_sequence, work) == "{\"sequence\":"@ + quoted_sequence
            + ",\"frame\":"@ + frame_part(work) + Seq::<char>::empty(),
{
    assert(work_set_text(quoted_sequence, work) =~= "{\"sequence\":"@ + quoted_sequence
        + ",\"frame\":"@ + frame_part(work) + Seq::<char>::empty());
}

/// Two work items whose forms agree from the last number on have the same
/// second genome.
proof fn lemma_genome2_part_holds_its_number(first: WorkItemView, second: WorkItemView)
    requires
        genome2_part(first) == genome2_part(second),
    ensures
        first.genome2_id == second.genome2_id,
{
    assert(starts_without_digit("}"@)) by {
        reveal_strlit("}");
    }
    lemma_decimal_digits(first.genome2_id as nat);
    lemma_decimal_digits(second.genome2_id as nat);
    lemma_digits_end_at_delimiter(
        decimal(first.genome2_id as nat),
        "}"@,
        decimal(second.genome2_id as nat),
        "}"@,
    );
    lemma_decimal_injective(first.genome2_id as nat, second.genome2_id as nat);
}

/// Two work items whose forms agree from the first genome on have the same
/// genomes.
proof fn lemma_genome_part_holds_its_numbers(first: WorkItemView, second: WorkItemView)
    requires
        genome_part(first) == genome_part(second),
    ensures
        first.genome_id == second.genome_id,
        first.genome2_id == second.genome2_id,
{
    let name = ",\"genome2_id\":"@;
    assert(name.len() > 0 && name[0] == ',') by {
        reveal_strlit(",\"genome2_id\":");
    }
    assert(starts_without_digit(name + genome2_part(first)));
    assert(starts_without_digit(name + genome2_part(second)));
    lemma_decimal_digits(first.genome_id as nat);
    lemma_decimal_digits(second.genome_id as nat);
    lemma_digits_end_at_delimiter(
        decimal(first.genome_id as nat),
        name + genome2_part(first),
        decimal(second.genome_id as nat),
        name + genome2_part(second),
    );
    lemma_decimal_injective(first.genome_id as nat, second.genome_id as nat);
    assert(name + genome2_part(first) + Seq::<char>::empty() =~= name + genome2_part(first));
    assert(name + genome2_part(second) + Seq::<char>::empty() =~= name + genome2_part(second));
    lemma_middle_determined(name, genome2_part(first), genome2_part(second), Seq::<char>::empty());
    lemma_genome2_part_holds_its_number(first, second);
}

/// Two work items whose forms agree from the frame on have the same frame
/// and the same genomes.
proof fn lemma_frame_part_holds_its_numbers(first: WorkItemView, second: WorkItemView)
    requires
        frame_part(first) == frame_part(second),
    ensures
        first.frame == second.frame,
        first.genome_id == second.genome_id,
        first.genome2_id == second.genome2_id,
{
    let name = ",\"genome_id\":"@;
    assert(name.len() > 0 && name[0] == ',') by {
        reveal_strlit(",\"genome_id\":");
    }
    assert(starts_without_digit(name + genome_part(first)));
    assert(starts_without_digit(name + genome_part(second)));
    lemma_decimal_digits(first.frame as nat);
    lemma_decimal_digits(second.frame as nat);
    lemma_digits_end_at_delimiter(
        decimal(first.frame as nat),
        name + genome_part(first),
        decimal(second.frame as nat),
        name + genome_part(second),
    );
    lemma_decimal_injective(first.frame as nat, second.frame as nat);
    assert(name + genome_part(first) + Seq::<char>::empty() =~= name + genome_part(first));
    assert(name + genome_part(second) + Seq::<char>::empty() =~= name + genome_part(second));
    lemma_middle_determined(name, genome_part(first), genome_part(second), Seq::<char>::empty());
    lemma_genome_part_holds_its_numbers(first, second);
}

/// The numbers of a work item can be read back from its JSON form: two
/// work items that are written the same around the same quoted sequence
/// have the same frame and the same genomes.
pub proof fn lemma_work_set_holds_the_numbers(
    quoted_sequence: Seq<char>,
    first: WorkItemView,
    second: WorkItemView,
)
    requires
        work_set_text(quoted_sequence, first) == work_set_text(quoted_sequence, second),
    ensures
        first.frame == second.frame,
        first.genome_id == second.genome_id,
        first.genome2_id == second.genome2_id,
{
    lemma_work_set_parts(quoted_sequence, first);
    lemma_work_set_parts(quoted_sequence, second);
    lemma_middle_determined(
        "{\"sequence\":"@ + quoted_sequence + ",\"frame\":"@,
        frame_part(first),
        frame_part(second),
        Seq::<char>::empty(),
    );
    lemma_frame_part_holds_its_numbers(first, second);
}

} // verus!
