//! What is written to disk for the images of a generation, and how the
//! per-image results are combined.
//!
//! Each image is handled on its own: an image that did not finish
//! successfully is refused, the others are base64-decoded and given a fresh
//! random file name in the target directory. The caller writes the files,
//! concurrently, then combines the per-image results with [`collect_saved`],
//! which reports every failure.
use vstd::prelude::*;
use crate::bindings::{
    base64_standard_decode, decode_base64, is_ascii_alphanumeric, random_alphanumeric,
};
use crate::error::{error_text, ErrorView, StabilityAIError};
use crate::types::{Artifacts, FinishReason, Image};

verus! {

/// Number of random characters in the name of a saved image.
pub const FILE_STEM_LEN: usize = 10;

/// Extension of a saved image.
pub const FILE_EXTENSION: &'static str = ".png";

/// Why an image that the safety filters caught is not saved.
pub const CONTENT_FILTERED_MESSAGE: &'static str = "FinishReason::CONTENT_FILTERED: Your request activated the API's safety filters and could not be processed. Please modify the prompt and try again.";

/// Why an image whose generation failed is not saved.
pub const GENERATION_ERROR_MESSAGE: &'static str = "FinishReason::ERROR";

/// Separator between the messages of an aggregated failure.
pub const FAILURE_SEPARATOR: &'static str = "; ";

/// The directory followed by a separator, unless it is empty or already ends in one.
pub open spec fn dir_prefix(dir: Seq<char>) -> Seq<char> {
    if dir.len() == 0 || dir.last() == '/' {
        dir
    } else {
        dir + "/"@
    }
}

/// A file name of `FILE_STEM_LEN` random letters and digits with the image extension.
pub open spec fn is_image_file_name(name: Seq<char>) -> bool {
    exists|stem: Seq<char>|
        #![trigger stem + FILE_EXTENSION@]
        stem.len() == FILE_STEM_LEN && (forall|i: int|
            0 <= i < stem.len() ==> is_ascii_alphanumeric(#[trigger] stem[i])) && name == stem
            + FILE_EXTENSION@
}

/// A path for a saved image directly inside `dir`.
pub open spec fn is_image_path(dir: Seq<char>, path: Seq<char>) -> bool {
    exists|name: Seq<char>| #[trigger] is_image_file_name(name) && path == dir_prefix(dir) + name
}

/// What is to be written for one image: these bytes at this path.
#[derive(Debug, Clone, PartialEq)]
pub struct SaveJob {
    pub path: String,
    pub bytes: Vec<u8>,
}

/// The result of preparing the save of `img` under `dir`: a refusal for an
/// image that did not finish successfully, a failure for data that is not
/// base64, else the decoded bytes at a fresh image path in `dir`.
pub open spec fn save_job_fits(img: Image, dir: Seq<char>, r: Result<SaveJob, StabilityAIError>) -> bool {
    match img.finish_reason {
        FinishReason::ContentFiltered => r matches Err(e) && e@ == ErrorView::FileSave(
            CONTENT_FILTERED_MESSAGE@,
        ),
        FinishReason::Error => r matches Err(e) && e@ == ErrorView::FileSave(
            GENERATION_ERROR_MESSAGE@,
        ),
        FinishReason::Success => match base64_standard_decode(img.base64@) {
            Ok(bytes) => r matches Ok(job) && job.bytes@ == bytes && is_image_path(dir, job.path@),
            Err(t) => r matches Err(e) && e@ == ErrorView::FileSave(t),
        },
    }
}

fn ends_with_separator(dir: &str) -> (r: bool)
    ensures
        r == (dir@.len() > 0 && dir@.last() == '/'),
{
    let n = dir.unicode_len();
    if n == 0 {
        false
    } else {
        dir.get_char(n - 1) == '/'
    }
}

/// The path of the file `name` directly inside `dir`.
pub fn join_path(dir: &str, name: &str) -> (r: String)
    ensures
        r@ == dir_prefix(dir@) + name@,
{
    let n = dir.unicode_len();
    if n == 0 || ends_with_separator(dir) {
        String::from_str(dir).concat(name)
    } else {
        String::from_str(dir).concat("/").concat(name)
    }
}

/// A fresh file name for an image: random letters and digits, then the extension.
pub fn new_image_file_name() -> (r: String)
    ensures
        is_image_file_name(r@),
{
    let stem = random_alphanumeric(FILE_STEM_LEN);
    let r = stem.concat(FILE_EXTENSION);
    assert(is_image_file_name(r@)) by {
        assert(stem@.len() == FILE_STEM_LEN);
        assert(r@ == stem@ + FILE_EXTENSION@);
    }
    r
}

impl Image {
    /// Decides what to write for this image under `dir`: an image that the
    /// safety filters caught or whose generation failed is refused with a
    /// message that says which; the data of a successful one is decoded and
    /// given a fresh file name in `dir`.
    pub fn save_job(&self, dir: &str) -> (r: Result<SaveJob, StabilityAIError>)
        ensures
            save_job_fits(*self, dir@, r),
    {
        match self.finish_reason {
            FinishReason::ContentFiltered => Err(
                StabilityAIError::FileSaveError(String::from_str(CONTENT_FILTERED_MESSAGE)),
            ),
            FinishReason::Error => Err(
                StabilityAIError::FileSaveError(String::from_str(GENERATION_ERROR_MESSAGE)),
            ),
            FinishReason::Success => match decode_base64(self.base64.as_str()) {
                Ok(bytes) => {
                    let name = new_image_file_name();
                    let path = join_path(dir, name.as_str());
                    assert(is_image_path(dir@, path@)) by {
                        assert(is_image_file_name(name@));
                    }
                    Ok(SaveJob { path, bytes })
                },
                Err(t) => Err(StabilityAIError::FileSaveError(t)),
            },
        }
    }
}

impl Artifacts {
    /// Prepares the save of every image under `dir`, one result per image in
    /// order; a refused image does not keep the others from being prepared.
    pub fn save_jobs(&self, dir: &str) -> (r: Vec<Result<SaveJob, StabilityAIError>>)
        ensures
            r@.len() == self.artifacts@.len(),
            forall|i: int|
                0 <= i < r@.len() ==> save_job_fits(self.artifacts@[i], dir@, #[trigger] r@[i]),
    {
        let mut r: Vec<Result<SaveJob, StabilityAIError>> = Vec::new();
        let n = self.artifacts.len();
        let mut i: usize = 0;
        while i < n
            invariant
                n == self.artifacts@.len(),
                i <= n,
                r@.len() == i,
                forall|j: int|
                    0 <= j < i ==> save_job_fits(self.artifacts@[j], dir@, #[trigger] r@[j]),
            decreases n - i,
        {
            r.push(self.artifacts[i].save_job(dir));
            i = i + 1;
        }
        r
    }
}

/// The texts of the failures among per-image results, in order.
pub open spec fn failures(rs: Seq<Result<String, StabilityAIError>>) -> Seq<Seq<char>>
    decreases rs.len(),
{
    if rs.len() == 0 {
        seq![]
    } else {
        failures(rs.drop_last()) + match rs.last() {
            Ok(_) => seq![],
            Err(e) => seq![error_text(e@)],
        }
    }
}

/// The paths written, among per-image results, in order.
pub open spec fn saved_paths(rs: Seq<Result<String, StabilityAIError>>) -> Seq<Seq<char>>
    decreases rs.len(),
{
    if rs.len() == 0 {
        seq![]
    } else {
        saved_paths(rs.drop_last()) + match rs.last() {
            Ok(p) => seq![p@],
            Err(_) => seq![],
        }
    }
}

/// The parts with `sep` between each two.
pub open spec fn join(parts: Seq<Seq<char>>, sep: Seq<char>) -> Seq<char>
    decreases parts.len(),
{
    if parts.len() == 0 {
        seq![]
    } else if parts.len() == 1 {
        parts[0]
    } else {
        join(parts.drop_last(), sep) + sep + parts.last()
    }
}

pub open spec fn strings_view(v: Seq<String>) -> Seq<Seq<char>> {
    v.map_values(|s: String| s@)
}

/// Combines per-image results: the written paths when every image was saved;
/// otherwise one save error whose message joins the text of every failure,
/// in order, with `"; "`.
pub fn collect_saved(results: &Vec<Result<String, StabilityAIError>>) -> (r: Result<
    Vec<String>,
    StabilityAIError,
>)
    ensures
        failures(results@).len() == 0 ==> (r matches Ok(paths) && strings_view(paths@)
            == saved_paths(results@)),
        failures(results@).len() > 0 ==> (r matches Err(e) && e@ == ErrorView::FileSave(
            join(failures(results@), FAILURE_SEPARATOR@),
        )),
{
    let mut paths: Vec<String> = Vec::new();
    let mut message = String::new();
    let mut failed: usize = 0;
    let n = results.len();
    let mut i: usize = 0;
    assert(results@.subrange(0, 0) =~= seq![]);
    assert(strings_view(paths@) =~= seq![]);
    while i < n
        invariant
            n == results@.len(),
            i <= n,
            failed == failures(results@.subrange(0, i as int)).len(),
            failed <= i,
            message@ == join(failures(results@.subrange(0, i as int)), FAILURE_SEPARATOR@),
            strings_view(paths@) == saved_paths(results@.subrange(0, i as int)),
        decreases n - i,
    {
        let ghost pre = results@.subrange(0, i as int);
        let ghost next = results@.subrange(0, i + 1);
        assert(next.drop_last() =~= pre);
        assert(next.last() == results@[i as int]);
        match &results[i] {
            Ok(p) => {
                let ghost before = paths@;
                paths.push(p.clone());
                assert(strings_view(paths@) =~= strings_view(before) + seq![p@]);
                assert(failures(next) =~= failures(pre));
            },
            Err(e) => {
                let t = e.to_string();
                let ghost fs = failures(pre);
                assert(failures(next) == fs + seq![t@]);
                assert((fs + seq![t@]).drop_last() =~= fs);
                if failed > 0 {
                    message.append(FAILURE_SEPARATOR);
                }
                message.append(t.as_str());
                if failed == 0 {
                    assert(fs.len() == 0);
                    assert(message@ =~= join(fs + seq![t@], FAILURE_SEPARATOR@));
                }
                failed = failed + 1;
                assert(saved_paths(next) =~= saved_paths(pre));
            },
        }
        i = i + 1;
    }
    assert(results@.subrange(0, n as int) =~= results@);
    if failed == 0 {
        Ok(paths)
    } else {
        Err(StabilityAIError::FileSaveError(message))
    }
}

/// Image paths in two directories that differ (as directories) are different.
pub proof fn lemma_image_paths_differ(d1: Seq<char>, d2: Seq<char>, p1: Seq<char>, p2: Seq<char>)
    requires
        dir_prefix(d1) != dir_prefix(d2),
        is_image_path(d1, p1),
        is_image_path(d2, p2),
    ensures
        p1 != p2,
{
    reveal_strlit(".png");
    let n1 = choose|name: Seq<char>| #[trigger] is_image_file_name(name) && p1 == dir_prefix(d1) + name;
    let n2 = choose|name: Seq<char>| #[trigger] is_image_file_name(name) && p2 == dir_prefix(d2) + name;
    let s1 = choose|stem: Seq<char>|
        #![trigger stem + FILE_EXTENSION@]
        stem.len() == FILE_STEM_LEN && (forall|i: int|
            0 <= i < stem.len() ==> is_ascii_alphanumeric(#[trigger] stem[i])) && n1 == stem
            + FILE_EXTENSION@;
    let s2 = choose|stem: Seq<char>|
        #![trigger stem + FILE_EXTENSION@]
        stem.len() == FILE_STEM_LEN && (forall|i: int|
            0 <= i < stem.len() ==> is_ascii_alphanumeric(#[trigger] stem[i])) && n2 == stem
            + FILE_EXTENSION@;
    assert(n1.len() == n2.len());
    assert(p1 == dir_prefix(d1) + n1);
    assert(p2 == dir_prefix(d2) + n2);
    assert(p1.len() == dir_prefix(d1).len() + n1.len());
    assert(p2.len() == dir_prefix(d2).len() + n2.len());
    if p1 == p2 {
        let a = dir_prefix(d1);
        let b = dir_prefix(d2);
        assert(a.len() == b.len());
        assert(p1.subrange(0, a.len() as int) =~= a);
        assert(p2.subrange(0, b.len() as int) =~= b);
    }
}

/// Saving the successful images of the same artifacts into two different
/// directories gives two disjoint sets of paths, and the same bytes for each
/// image: an image is prepared in one directory exactly when it is in the
/// other, from the same decoded data.
pub proof fn lemma_save_into_two_dirs(
    a: Artifacts,
    d1: Seq<char>,
    d2: Seq<char>,
    r1: Seq<Result<SaveJob, StabilityAIError>>,
    r2: Seq<Result<SaveJob, StabilityAIError>>,
)
    requires
        dir_prefix(d1) != dir_prefix(d2),
        r1.len() == a.artifacts@.len(),
        r2.len() == a.artifacts@.len(),
        forall|i: int| 0 <= i < r1.len() ==> save_job_fits(a.artifacts@[i], d1, #[trigger] r1[i]),
        forall|i: int| 0 <= i < r2.len() ==> save_job_fits(a.artifacts@[i], d2, #[trigger] r2[i]),
    ensures
        forall|i: int, j: int|
            0 <= i < r1.len() && 0 <= j < r2.len() && #[trigger] r1[i] is Ok && #[trigger] r2[j] is Ok
                ==> r1[i]->Ok_0.path@ != r2[j]->Ok_0.path@,
        forall|i: int|
            0 <= i < r1.len() ==> (#[trigger] r1[i] is Ok <==> r2[i] is Ok),
        forall|i: int|
            0 <= i < r1.len() && #[trigger] r1[i] is Ok ==> r1[i]->Ok_0.bytes@ == r2[i]->Ok_0.bytes@,
{
    assert forall|i: int, j: int|
        0 <= i < r1.len() && 0 <= j < r2.len() && #[trigger] r1[i] is Ok && #[trigger] r2[j] is Ok
            implies r1[i]->Ok_0.path@ != r2[j]->Ok_0.path@ by {
        assert(save_job_fits(a.artifacts@[i], d1, r1[i]));
        assert(save_job_fits(a.artifacts@[j], d2, r2[j]));
        lemma_image_paths_differ(d1, d2, r1[i]->Ok_0.path@, r2[j]->Ok_0.path@);
    }
    assert forall|i: int| 0 <= i < r1.len() implies (#[trigger] r1[i] is Ok <==> r2[i] is Ok) && (
    r1[i] is Ok ==> r1[i]->Ok_0.bytes@ == r2[i]->Ok_0.bytes@) by {
        assert(save_job_fits(a.artifacts@[i], d1, r1[i]));
        assert(save_job_fits(a.artifacts@[i], d2, r2[i]));
    }
}

proof fn lemma_no_failures(rs: Seq<Result<String, StabilityAIError>>)
    requires
        forall|i: int| 0 <= i < rs.len() ==> #[trigger] rs[i] is Ok,
    ensures
        failures(rs) == Seq::<Seq<char>>::empty(),
    decreases rs.len(),
{
    if rs.len() > 0 {
        lemma_no_failures(rs.drop_last());
        assert(rs.last() is Ok);
        assert(failures(rs) =~= seq![]);
    }
}

/// When exactly one per-image result is a failure, the failures are that one
/// failure's text, and the aggregated message is that text alone.
pub proof fn lemma_single_failure(rs: Seq<Result<String, StabilityAIError>>, k: int)
    requires
        0 <= k < rs.len(),
        rs[k] is Err,
        forall|i: int| 0 <= i < rs.len() && i != k ==> #[trigger] rs[i] is Ok,
    ensures
        failures(rs) == seq![error_text(rs[k]->Err_0@)],
        join(failures(rs), FAILURE_SEPARATOR@) == error_text(rs[k]->Err_0@),
    decreases rs.len(),
{
    let pre = rs.drop_last();
    if k == rs.len() - 1 {
        assert forall|i: int| 0 <= i < pre.len() implies #[trigger] pre[i] is Ok by {
            assert(rs[i] is Ok);
        }
        lemma_no_failures(pre);
        assert(failures(rs) =~= seq![error_text(rs[k]->Err_0@)]);
    } else {
        assert forall|i: int| 0 <= i < pre.len() && i != k implies #[trigger] pre[i] is Ok by {
            assert(rs[i] is Ok);
        }
        lemma_single_failure(pre, k);
        assert(rs.last() is Ok);
        assert(failures(rs) =~= seq![error_text(rs[k]->Err_0@)]);
    }
}

} // verus!
