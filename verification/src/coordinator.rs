//! The job coordinator: the per-image tool-chain state machine.
//!
//! `apply_added_tools` builds one chain per source image; `add_to_queue` pops
//! the chain's next tool, records the in-flight job under the fresh message
//! id, and hands back the request to publish; a response is correlated by
//! `handle_response`, which removes the job, persists nothing on error, and
//! on success yields the image-version row, and the follow-up chain when
//! tools remain. The caller performs the broker, database and push I/O with
//! the values these functions return.

use crate::ids::id_str;
use crate::json::{clone_json, jview_obj, Json, JsonV};
use crate::paths::version_output_uri_str;
use crate::wire::{ErrorObject, OutputType, RequestMessage, ResponseMessage, ResponseStatus};
use vstd::multiset::Multiset;
use vstd::prelude::*;
use vstd::string::StringExecFns;

verus! {

broadcast use vstd::seq_lib::group_seq_properties;

/// A tool as a caller requests it: a procedure name and its parameters.
#[derive(Debug)]
pub struct RequestedTool {
    /// The procedure to apply.
    pub procedure: String,
    /// The procedure's parameters, a JSON object's members.
    pub parameters: Vec<(String, Json)>,
}

/// The mathematical form of a requested tool.
pub struct RequestedToolV {
    pub procedure: Seq<char>,
    pub parameters: Seq<(Seq<char>, JsonV)>,
}

impl View for RequestedTool {
    type V = RequestedToolV;

    open spec fn view(&self) -> RequestedToolV {
        RequestedToolV {
            procedure: self.procedure@,
            parameters: jview_obj(self.parameters, self.parameters.len() as int),
        }
    }
}

/// Procedure parameters never carry the two reserved image-URI keys; those
/// are merged in when a request is composed.
pub open spec fn requested_tool_wf(v: RequestedToolV) -> bool {
    forall|i: int|
        0 <= i < v.parameters.len() ==> (#[trigger] v.parameters[i]).0 != "inputImageURI"@
            && v.parameters[i].0 != "outputImageURI"@
}

impl RequestedTool {
    /// Procedure parameters never carry the two reserved image-URI keys.
    pub open spec fn wf(self) -> bool {
        requested_tool_wf(self@)
    }
}

/// A copy of `t` with the same mathematical form.
pub fn clone_requested_tool(t: &RequestedTool) -> (r: RequestedTool)
    ensures
        r@ == t@,
        r.wf() == t.wf(),
{
    let mut params: Vec<(String, Json)> = Vec::new();
    let mut k: usize = 0;
    while k < t.parameters.len()
        invariant
            k <= t.parameters@.len(),
            params@.len() == k,
            forall|i: int|
                0 <= i < k ==> params@[i].0@ == t.parameters@[i].0@ && crate::json::jview(
                    params@[i].1,
                ) == crate::json::jview(t.parameters@[i].1),
        decreases t.parameters@.len() - k,
    {
        let key = t.parameters[k].0.clone();
        let val = clone_json(&t.parameters[k].1);
        params.push((key, val));
        k = k + 1;
    }
    proof {
        crate::json::lemma_jview_obj(params, params@.len() as int);
        crate::json::lemma_jview_obj(t.parameters, t.parameters@.len() as int);
        assert(jview_obj(params, params@.len() as int) =~= jview_obj(
            t.parameters,
            t.parameters@.len() as int,
        ));
    }
    RequestedTool { procedure: t.procedure.clone(), parameters: params }
}

/// A tool row attached to a project, ordered by `position`.
#[derive(Debug)]
pub struct Tool {
    /// The unique identifier of the tool.
    pub id: u128,
    /// The project the tool belongs to.
    pub project_id: u128,
    /// The order of application within the project; the first tool is 1.
    pub position: i32,
    /// The procedure to apply.
    pub procedure: String,
    /// The procedure's parameters, a JSON object.
    pub parameters: Json,
}

/// The mathematical form of a tool row.
pub struct ToolV {
    pub id: u128,
    pub project_id: u128,
    pub position: int,
    pub procedure: Seq<char>,
    pub parameters: JsonV,
}

impl View for Tool {
    type V = ToolV;

    open spec fn view(&self) -> ToolV {
        ToolV {
            id: self.id,
            project_id: self.project_id,
            position: self.position as int,
            procedure: self.procedure@,
            parameters: self.parameters@,
        }
    }
}

/// The parameters are an object without the reserved image-URI keys.
pub open spec fn tool_wf(v: ToolV) -> bool {
    &&& v.parameters is Obj
    &&& requested_tool_wf(
        RequestedToolV { procedure: v.procedure, parameters: v.parameters->Obj_0 },
    )
}

impl Tool {
    /// The parameters are an object without the reserved image-URI keys.
    pub open spec fn wf(self) -> bool {
        tool_wf(self@)
    }

    /// The requested-tool form of this row: same procedure, the parameter
    /// object's members as the parameter list.
    pub fn to_requested_tool(&self) -> (r: RequestedTool)
        requires
            self.wf(),
        ensures
            r@.procedure == self@.procedure,
            JsonV::Obj(r@.parameters) == self@.parameters,
            r.wf(),
    {
        let params: Vec<(String, Json)> = match &self.parameters {
            Json::Obj(o) => {
                let cloned = clone_json(&self.parameters);
                match cloned {
                    Json::Obj(v) => v,
                    _ => vstd::pervasive::unreached(),
                }
            },
            _ => vstd::pervasive::unreached(),
        };
        RequestedTool { procedure: self.procedure.clone(), parameters: params }
    }
}

/// A source image row.
#[derive(Debug)]
pub struct Image {
    /// The unique identifier of the image.
    pub id: u128,
    /// The image's file name as uploaded.
    pub name: String,
    /// The project the image belongs to.
    pub project_id: u128,
}

/// The mathematical form of an image row.
pub struct ImageV {
    pub id: u128,
    pub name: Seq<char>,
    pub project_id: u128,
}

impl View for Image {
    type V = ImageV;

    open spec fn view(&self) -> ImageV {
        ImageV { id: self.id, name: self.name@, project_id: self.project_id }
    }
}

impl Image {
    /// The on-disk path of this image under `image_root`.
    pub fn get_uri(&self, image_root: &str) -> (r: String)
        ensures
            r@ == crate::paths::image_uri_str(image_root@, self.project_id, self.id, self.name@),
    {
        crate::paths::generate_image_uri(image_root, self.project_id, self.id, self.name.as_str())
    }
}

/// The persisted artifact of one successful tool application.
#[derive(Debug)]
pub struct ImageVersion {
    /// The unique identifier of the version.
    pub id: u128,
    /// The source image the chain started from.
    pub original_image_id: u128,
    /// The project the version belongs to.
    pub project_id: u128,
    /// The tool whose application produced this version.
    pub tool_id: u128,
    /// The text the tool produced, for text-producing tools only.
    pub text_result: Option<String>,
    /// When the version was recorded, ISO-8601 UTC.
    pub created_at: String,
}

/// The mathematical form of an image version.
pub struct ImageVersionV {
    pub id: u128,
    pub original_image_id: u128,
    pub project_id: u128,
    pub tool_id: u128,
    pub text_result: Option<Seq<char>>,
    pub created_at: Seq<char>,
}

impl View for ImageVersion {
    type V = ImageVersionV;

    open spec fn view(&self) -> ImageVersionV {
        ImageVersionV {
            id: self.id,
            original_image_id: self.original_image_id,
            project_id: self.project_id,
            tool_id: self.tool_id,
            text_result: match self.text_result {
                Some(ref t) => Some(t@),
                None => None,
            },
            created_at: self.created_at@,
        }
    }
}

impl ImageVersion {
    /// The on-disk path of this version's file under `image_root`.
    pub fn get_uri(&self, image_root: &str) -> (r: String)
        ensures
            r@ == version_output_uri_str(
                image_root@,
                self.project_id,
                self.original_image_id,
                self.id,
            ),
    {
        crate::paths::generate_image_version_output_uri(
            image_root,
            self.project_id,
            self.original_image_id,
            self.id,
        )
    }
}

/// One in-flight chain: the pending image version and the tools still to run.
#[derive(Debug)]
pub struct QueuedImageApplyTool {
    /// The id the next produced version will carry.
    pub new_image_uuid: u128,
    /// The source image the chain started from.
    pub original_image_uuid: u128,
    /// The project the chain belongs to.
    pub project_id: u128,
    /// The user who started the chain; push events go to this user.
    pub user_id: u128,
    /// Where the next tool reads its input.
    pub image_input_uri: String,
    /// Where the next tool writes its output.
    pub image_output_uri: String,
    /// The tools not yet applied, first next.
    pub missing_tools: Vec<(u128, RequestedTool)>,
}

/// The mathematical form of an in-flight chain.
pub struct QueuedV {
    pub new_image_uuid: u128,
    pub original_image_uuid: u128,
    pub project_id: u128,
    pub user_id: u128,
    pub image_input_uri: Seq<char>,
    pub image_output_uri: Seq<char>,
    pub missing_tools: Seq<(u128, RequestedToolV)>,
}

impl View for QueuedImageApplyTool {
    type V = QueuedV;

    open spec fn view(&self) -> QueuedV {
        QueuedV {
            new_image_uuid: self.new_image_uuid,
            original_image_uuid: self.original_image_uuid,
            project_id: self.project_id,
            user_id: self.user_id,
            image_input_uri: self.image_input_uri@,
            image_output_uri: self.image_output_uri@,
            missing_tools: self.missing_tools@.map_values(
                |p: (u128, RequestedTool)| (p.0, p.1@),
            ),
        }
    }
}

/// Every queued tool keeps its parameters free of the reserved keys.
pub open spec fn queued_wf(v: QueuedV) -> bool {
    forall|i: int|
        0 <= i < v.missing_tools.len() ==> requested_tool_wf((#[trigger] v.missing_tools[i]).1)
}

impl QueuedImageApplyTool {
    /// Every queued tool keeps its parameters free of the reserved keys.
    pub open spec fn wf(self) -> bool {
        queued_wf(self@)
    }

    /// A chain for `original_image_uuid` whose next output gets the given
    /// fresh id and the path derived from it.
    pub fn with_new_image_id(
        project_id: u128,
        user_id: u128,
        original_image_uuid: u128,
        image_input_uri: String,
        missing_tools: Vec<(u128, RequestedTool)>,
        image_root: &str,
        new_image_uuid: u128,
    ) -> (r: QueuedImageApplyTool)
        ensures
            r@ == (QueuedV {
                new_image_uuid,
                original_image_uuid,
                project_id,
                user_id,
                image_input_uri: image_input_uri@,
                image_output_uri: version_output_uri_str(
                    image_root@,
                    project_id,
                    original_image_uuid,
                    new_image_uuid,
                ),
                missing_tools: missing_tools@.map_values(|p: (u128, RequestedTool)| (p.0, p.1@)),
            }),
            r.new_image_uuid == new_image_uuid,
            r.missing_tools@ =~= missing_tools@,
    {
        let image_output_uri = crate::paths::generate_image_version_output_uri(
            image_root,
            project_id,
            original_image_uuid,
            new_image_uuid,
        );
        QueuedImageApplyTool {
            new_image_uuid,
            original_image_uuid,
            project_id,
            user_id,
            image_input_uri,
            image_output_uri,
            missing_tools,
        }
    }

    /// A chain with a freshly drawn id for its next output.
    pub fn new_generate_output_uri(
        project_id: u128,
        user_id: u128,
        original_image_uuid: u128,
        image_input_uri: String,
        missing_tools: Vec<(u128, RequestedTool)>,
        image_root: &str,
    ) -> (r: QueuedImageApplyTool)
        ensures
            r@ == (QueuedV {
                new_image_uuid: r.new_image_uuid,
                original_image_uuid,
                project_id,
                user_id,
                image_input_uri: image_input_uri@,
                image_output_uri: version_output_uri_str(
                    image_root@,
                    project_id,
                    original_image_uuid,
                    r.new_image_uuid,
                ),
                missing_tools: missing_tools@.map_values(|p: (u128, RequestedTool)| (p.0, p.1@)),
            }),
            r.missing_tools@ =~= missing_tools@,
    {
        let new_image_uuid = crate::ids::fresh_id();
        Self::with_new_image_id(
            project_id,
            user_id,
            original_image_uuid,
            image_input_uri,
            missing_tools,
            image_root,
            new_image_uuid,
        )
    }
}

/// One recorded in-flight job: the tool being applied and its chain.
#[derive(Debug)]
pub struct InFlightJob {
    /// The tool whose request is outstanding.
    pub tool_id: u128,
    /// The chain the response will continue.
    pub queued: QueuedImageApplyTool,
}

/// The mathematical form of an in-flight job.
pub struct InFlightJobV {
    pub tool_id: u128,
    pub queued: QueuedV,
}

impl View for InFlightJob {
    type V = InFlightJobV;

    open spec fn view(&self) -> InFlightJobV {
        InFlightJobV { tool_id: self.tool_id, queued: self.queued@ }
    }
}

/// Whether some entry of `entries` has key text `k`.
pub open spec fn table_has_key(entries: Seq<(String, InFlightJob)>, k: Seq<char>) -> bool {
    exists|i: int| 0 <= i < entries.len() && entries[i].0@ == k
}

/// The job recorded under key text `k`.
pub open spec fn table_value(entries: Seq<(String, InFlightJob)>, k: Seq<char>) -> InFlightJobV {
    let i = choose|i: int| 0 <= i < entries.len() && entries[i].0@ == k;
    entries[i].1@
}

/// The entries as a map from correlation text to job.
pub open spec fn table_map(entries: Seq<(String, InFlightJob)>) -> Map<Seq<char>, InFlightJobV> {
    Map::new(|k: Seq<char>| table_has_key(entries, k), |k: Seq<char>| table_value(entries, k))
}

/// The process-wide table of in-flight jobs, keyed by the text of the
/// request's message id. Each key is written twice in a job's life: inserted
/// before its request is published, removed when its response arrives.
#[derive(Debug)]
pub struct InFlightTable {
    entries: Vec<(String, InFlightJob)>,
}

impl View for InFlightTable {
    type V = Map<Seq<char>, InFlightJobV>;

    closed spec fn view(&self) -> Map<Seq<char>, InFlightJobV> {
        table_map(self.entries@)
    }
}

impl InFlightTable {
    /// Keys are unique, and every queued tool is well formed.
    pub closed spec fn wf(self) -> bool {
        &&& forall|i: int, j: int|
            0 <= i < j < self.entries@.len() ==> (#[trigger] self.entries@[i]).0@ != (
            #[trigger] self.entries@[j]).0@
        &&& forall|i: int|
            0 <= i < self.entries@.len() ==> (#[trigger] self.entries@[i]).1.queued.wf()
    }

    /// An empty table.
    pub fn new() -> (r: InFlightTable)
        ensures
            r.wf(),
            r@ =~= Map::<Seq<char>, InFlightJobV>::empty(),
    {
        InFlightTable { entries: Vec::new() }
    }

    /// How many jobs are in flight.
    pub fn len(&self) -> (r: usize)
        requires
            self.wf(),
        ensures
            self@.dom().finite(),
            r == self@.dom().len(),
    {
        proof {
            self.lemma_dom_finite();
            let key_texts = self.entries@.map_values(|e: (String, InFlightJob)| e.0@);
            assert(key_texts.no_duplicates());
            key_texts.unique_seq_to_set();
        }
        self.entries.len()
    }

    proof fn lemma_dom_finite(self)
        ensures
            self@.dom().finite(),
            self@.dom() == self.entries@.map_values(|e: (String, InFlightJob)| e.0@).to_set(),
    {
        let entries = self.entries@;
        let key_texts = entries.map_values(|e: (String, InFlightJob)| e.0@);
        vstd::seq_lib::seq_to_set_is_finite(key_texts);
        assert forall|k: Seq<char>| self@.dom().contains(k) implies key_texts.to_set().contains(
            k,
        ) by {
            let i = choose|i: int| 0 <= i < entries.len() && entries[i].0@ == k;
            assert(key_texts[i] == k);
        }
        assert forall|k: Seq<char>| key_texts.to_set().contains(k) implies self@.dom().contains(
            k,
        ) by {
            let i = choose|i: int| 0 <= i < key_texts.len() && key_texts[i] == k;
            assert(entries[i].0@ == k);
        }
        assert(self@.dom() =~= key_texts.to_set());
    }

    /// Whether a job is recorded under the key text of `key`.
    pub fn contains_key(&self, key: &String) -> (r: bool)
        ensures
            r == self@.contains_key(key@),
    {
        let mut i: usize = 0;
        while i < self.entries.len()
            invariant
                i <= self.entries@.len(),
                forall|j: int| 0 <= j < i ==> (#[trigger] self.entries@[j]).0@ != key@,
            decreases self.entries@.len() - i,
        {
            if self.entries[i].0.eq(key) {
                return true;
            }
            i = i + 1;
        }
        false
    }

    /// Records `job` under `key`; the key must be fresh.
    pub fn insert(&mut self, key: String, job: InFlightJob)
        requires
            old(self).wf(),
            !old(self)@.contains_key(key@),
            job.queued.wf(),
        ensures
            final(self).wf(),
            final(self)@ =~= old(self)@.insert(key@, job@),
    {
        proof {
            assert(!table_has_key(self.entries@, key@));
        }
        let ghost old_entries = self.entries@;
        self.entries.push((key, job));
        proof {
            let entries = self.entries@;
            let n = old_entries.len() as int;
            assert(forall|j: int|
                0 <= j < n ==> entries[j] == old_entries[j] && (#[trigger] entries[j]).0@
                    == old_entries[j].0@);
            assert(entries[n].0@ == key@ && entries[n].1 == job);
            assert(forall|j: int| 0 <= j < n ==> (#[trigger] old_entries[j]).0@ != key@);
            assert(table_has_key(entries, key@));
            assert forall|k: Seq<char>|
                table_map(entries).contains_key(k) == old(self)@.insert(
                    key@,
                    job@,
                ).contains_key(k) by {
                if table_has_key(entries, k) {
                    let i = choose|i: int| 0 <= i < entries.len() && entries[i].0@ == k;
                    if i < n {
                        assert(old_entries[i].0@ == k);
                        assert(table_has_key(old_entries, k));
                    } else {
                        assert(k == key@);
                    }
                }
                if table_has_key(old_entries, k) {
                    let i = choose|i: int| 0 <= i < old_entries.len() && old_entries[i].0@ == k;
                    assert(entries[i].0@ == k);
                    assert(table_has_key(entries, k));
                }
            }
            assert forall|k: Seq<char>|
                table_map(entries).contains_key(k) implies table_map(entries)[k] == old(
                self,
            )@.insert(key@, job@)[k] by {
                let i = choose|i: int| 0 <= i < entries.len() && entries[i].0@ == k;
                if k == key@ {
                    if i < n {
                        assert(old_entries[i].0@ == key@);
                        assert(table_has_key(old_entries, key@));
                        assert(false);
                    }
                    assert(table_value(entries, k) == job@);
                } else {
                    assert(i < n);
                    assert(old_entries[i].0@ == k);
                    assert(table_has_key(old_entries, k));
                    let j = choose|j: int| 0 <= j < old_entries.len() && old_entries[j].0@ == k;
                    assert(j == i);
                    assert(table_value(entries, k) == table_value(old_entries, k));
                }
            }
            assert(table_map(self.entries@) =~= old(self)@.insert(key@, job@));
            assert forall|a: int, b: int| 0 <= a < b < entries.len() implies (
            #[trigger] entries[a]).0@ != (#[trigger] entries[b]).0@ by {
                if b < n {
                } else {
                    assert(entries[b].0@ == key@);
                    assert(entries[a].0@ == old_entries[a].0@);
                }
            }
        }
    }

    /// Removes and returns the job recorded under the key text of `key`.
    /// With no such job, the table is unchanged.
    pub fn remove(&mut self, key: &String) -> (r: Option<InFlightJob>)
        requires
            old(self).wf(),
        ensures
            final(self).wf(),
            match r {
                Some(job) => old(self)@.contains_key(key@) && job@ == old(self)@[key@]
                    && final(self)@ =~= old(self)@.remove(key@) && job.queued.wf(),
                None => !old(self)@.contains_key(key@) && final(self)@ =~= old(self)@,
            },
    {
        let ghost old_entries = self.entries@;
        let mut i: usize = 0;
        while i < self.entries.len()
            invariant
                old(self).wf(),
                self == old(self),
                self.entries@ == old_entries,
                i <= old_entries.len(),
                forall|j: int| 0 <= j < i ==> (#[trigger] old_entries[j]).0@ != key@,
            decreases old_entries.len() - i,
        {
            if self.entries[i].0.eq(key) {
                proof {
                    assert(old_entries[i as int].0@ == key@);
                    assert(table_has_key(old_entries, key@));
                }
                let (_, job) = self.entries.remove(i);
                proof {
                    let entries = self.entries@;
                    assert(forall|j: int|
                        0 <= j < i ==> entries[j] == old_entries[j] && (#[trigger] entries[j]).0@
                            == old_entries[j].0@);
                    assert(forall|j: int|
                        i <= j < entries.len() ==> entries[j] == old_entries[j + 1] && (
                        #[trigger] entries[j]).0@ == old_entries[j + 1].0@);
                    assert(forall|a: int, b: int|
                        0 <= a < b < old_entries.len() ==> (#[trigger] old_entries[a]).0@ != (
                        #[trigger] old_entries[b]).0@);
                    let w = choose|w: int|
                        0 <= w < old_entries.len() && old_entries[w].0@ == key@;
                    assert(old_entries[w].0@ == key@ && old_entries[i as int].0@ == key@);
                    assert(w == i);
                    assert(table_value(old_entries, key@) == old_entries[i as int].1@);
                    assert(job@ == old(self)@[key@]);
                    assert forall|k: Seq<char>|
                        table_map(entries).contains_key(k) == old(self)@.remove(
                            key@,
                        ).contains_key(k) by {
                        if table_has_key(entries, k) {
                            let a = choose|a: int| 0 <= a < entries.len() && entries[a].0@ == k;
                            if a < i {
                                assert(old_entries[a].0@ == k);
                                assert(k != key@);
                            } else {
                                assert(old_entries[a + 1].0@ == k);
                                assert(k != key@);
                            }
                            assert(table_has_key(old_entries, k));
                        }
                        if table_has_key(old_entries, k) && k != key@ {
                            let a = choose|a: int|
                                0 <= a < old_entries.len() && old_entries[a].0@ == k;
                            if a < i {
                                assert(entries[a].0@ == k);
                            } else {
                                assert(a != i);
                                assert(entries[a - 1].0@ == k);
                            }
                            assert(table_has_key(entries, k));
                        }
                    }
                    assert forall|k: Seq<char>|
                        table_map(entries).contains_key(k) implies table_map(entries)[k] == old(
                        self,
                    )@.remove(key@)[k] by {
                        let a = choose|a: int| 0 <= a < entries.len() && entries[a].0@ == k;
                        assert(table_has_key(old_entries, k));
                        let b = choose|b: int|
                            0 <= b < old_entries.len() && old_entries[b].0@ == k;
                        if a < i {
                            assert(old_entries[a].0@ == k);
                            assert(b == a);
                        } else {
                            assert(old_entries[a + 1].0@ == k);
                            assert(b == a + 1);
                        }
                        assert(table_value(entries, k) == table_value(old_entries, k));
                    }
                    assert(table_map(entries) =~= old(self)@.remove(key@));
                    assert forall|a: int, b: int| 0 <= a < b < entries.len() implies (
                    #[trigger] entries[a]).0@ != (#[trigger] entries[b]).0@ by {
                        if a < i {
                            if b < i {
                                assert(entries[a].0@ == old_entries[a].0@);
                                assert(entries[b].0@ == old_entries[b].0@);
                            } else {
                                assert(entries[a].0@ == old_entries[a].0@);
                                assert(entries[b].0@ == old_entries[b + 1].0@);
                            }
                        } else {
                            assert(entries[a].0@ == old_entries[a + 1].0@);
                            assert(entries[b].0@ == old_entries[b + 1].0@);
                        }
                    }
                }
                return Some(job);
            }
            i = i + 1;
        }
        proof {
            assert(!table_has_key(old_entries, key@));
        }
        None
    }
}

/// A parameter list with the two image URIs merged in at the end.
pub open spec fn merged_params(
    ps: Seq<(Seq<char>, JsonV)>,
    input_uri: Seq<char>,
    output_uri: Seq<char>,
) -> Seq<(Seq<char>, JsonV)> {
    ps + seq![
        ("inputImageURI"@, JsonV::Str(input_uri)),
        ("outputImageURI"@, JsonV::Str(output_uri)),
    ]
}

/// The flat parameter object of a request: the tool's parameters followed by
/// `inputImageURI` and `outputImageURI`.
pub fn merge_parameters(tool: &RequestedTool, input_uri: &String, output_uri: &String) -> (r: Vec<
    (String, Json),
>)
    ensures
        jview_obj(r, r@.len() as int) == merged_params(tool@.parameters, input_uri@, output_uri@),
{
    let cloned = clone_requested_tool(tool);
    let mut params = cloned.parameters;
    let ghost base_len = params@.len() as int;
    proof {
        crate::json::lemma_jview_obj(params, base_len);
    }
    params.push((String::from_str("inputImageURI"), Json::Str(input_uri.clone())));
    params.push((String::from_str("outputImageURI"), Json::Str(output_uri.clone())));
    proof {
        crate::json::lemma_jview_obj(params, params@.len() as int);
        assert(jview_obj(params, params@.len() as int) =~= merged_params(
            tool@.parameters,
            input_uri@,
            output_uri@,
        ));
    }
    params
}

/// Pops the chain's next tool, records the in-flight job under the text of
/// `message_id`, and returns the request to publish. With no tool left, the
/// chain terminates: no job is recorded and no request is produced. A caller
/// whose publish fails must remove the recorded key again.
pub fn add_to_queue(
    table: &mut InFlightTable,
    queued: QueuedImageApplyTool,
    message_id: u128,
    timestamp: String,
) -> (r: Option<RequestMessage>)
    requires
        old(table).wf(),
        queued.wf(),
        !old(table)@.contains_key(id_str(message_id)),
    ensures
        final(table).wf(),
        match r {
            None => queued.missing_tools@.len() == 0 && final(table)@ == old(table)@,
            Some(req) => {
                &&& queued.missing_tools@.len() > 0
                &&& req.message_id == message_id
                &&& req@.timestamp == timestamp@
                &&& req@.procedure == queued@.missing_tools[0].1.procedure
                &&& req@.parameters == merged_params(
                    queued@.missing_tools[0].1.parameters,
                    queued@.image_input_uri,
                    queued@.image_output_uri,
                )
                &&& final(table)@ == old(table)@.insert(
                    id_str(message_id),
                    InFlightJobV {
                        tool_id: queued@.missing_tools[0].0,
                        queued: QueuedV {
                            missing_tools: queued@.missing_tools.subrange(
                                1,
                                queued@.missing_tools.len() as int,
                            ),
                            ..queued@
                        },
                    },
                )
            },
        },
{
    let mut queued = queued;
    if queued.missing_tools.len() == 0 {
        return None;
    }
    let ghost old_q = queued@;
    let ghost old_tools = queued.missing_tools@;
    let (tool_uuid, requested_tool) = queued.missing_tools.remove(0);
    proof {
        assert(old_q.missing_tools == old_tools.map_values(
            |p: (u128, RequestedTool)| (p.0, p.1@),
        ));
        assert(old_q.missing_tools[0] == (old_tools[0].0, old_tools[0].1@));
        assert(queued@.missing_tools =~= old_q.missing_tools.subrange(
            1,
            old_q.missing_tools.len() as int,
        ));
        assert(queued.wf());
    }
    let parameters = merge_parameters(
        &requested_tool,
        &queued.image_input_uri,
        &queued.image_output_uri,
    );
    let req = RequestMessage {
        message_id,
        timestamp,
        procedure: requested_tool.procedure,
        parameters,
    };
    let key = crate::ids::id_to_string(message_id);
    table.insert(key, InFlightJob { tool_id: tool_uuid, queued });
    Some(req)
}

/// Merging the image URIs adds exactly the two reserved keys: together with
/// the schema lemmas, a request's parameter keys outside the reserved pair
/// are exactly its procedure's schema.
pub proof fn lemma_merged_param_keys(
    ps: Seq<(Seq<char>, JsonV)>,
    input_uri: Seq<char>,
    output_uri: Seq<char>,
)
    ensures
        crate::worker::obj_keys(merged_params(ps, input_uri, output_uri))
            == crate::worker::obj_keys(ps).insert("inputImageURI"@).insert("outputImageURI"@),
{
    let merged = merged_params(ps, input_uri, output_uri);
    let mk = merged.map_values(|p: (Seq<char>, JsonV)| p.0);
    let pk = ps.map_values(|p: (Seq<char>, JsonV)| p.0);
    assert(mk.len() == ps.len() + 2);
    assert(mk[ps.len() as int] == "inputImageURI"@);
    assert(mk[ps.len() as int + 1] == "outputImageURI"@);
    assert(forall|i: int| 0 <= i < ps.len() ==> mk[i] == #[trigger] pk[i]);
    assert forall|x: Seq<char>|
        mk.to_set().contains(x) == pk.to_set().insert("inputImageURI"@).insert(
            "outputImageURI"@,
        ).contains(x) by {
        if mk.to_set().contains(x) {
            let i = choose|i: int| 0 <= i < mk.len() && mk[i] == x;
            if i < ps.len() {
                assert(pk[i] == x);
                assert(pk.to_set().contains(x));
            }
        }
        if pk.to_set().contains(x) {
            let i = choose|i: int| 0 <= i < pk.len() && pk[i] == x;
            assert(mk[i] == x);
            assert(mk.to_set().contains(x));
        }
        if x == "inputImageURI"@ || x == "outputImageURI"@ {
            assert(mk.to_set().contains(x));
        }
    }
    assert(mk.to_set() =~= pk.to_set().insert("inputImageURI"@).insert("outputImageURI"@));
}

/// What the coordinator decides for one consumed response.
#[derive(Debug)]
pub enum ResponseOutcome {
    /// No in-flight job matches the correlation id; nothing changes.
    UnknownCorrelation,
    /// The worker reported an error: the chain stops, nothing is persisted,
    /// and the user is told best-effort.
    ChainFailed { project_id: u128, user_id: u128, error: ErrorObject },
    /// The worker succeeded: persist the version, notify the user, and when
    /// tools remain, continue with the returned chain.
    StepSaved {
        version: ImageVersion,
        project_id: u128,
        user_id: u128,
        next: Option<QueuedImageApplyTool>,
    },
}

/// Correlates one response with the in-flight table and decides what
/// follows. An unknown correlation id removes nothing and is reported as
/// such; an error response removes the job and aborts the chain; a success
/// response removes the job, yields the image-version row stamped `now`,
/// and, when tools remain, the follow-up chain reading from the finished
/// step's output.
pub fn handle_response(
    table: &mut InFlightTable,
    message: ResponseMessage,
    now: String,
    image_root: &str,
) -> (r: ResponseOutcome)
    requires
        old(table).wf(),
    ensures
        final(table).wf(),
        match r {
            ResponseOutcome::UnknownCorrelation => !old(table)@.contains_key(
                message@.correlation_id,
            ) && final(table)@ == old(table)@,
            ResponseOutcome::ChainFailed { project_id, user_id, error } => {
                &&& old(table)@.contains_key(message@.correlation_id)
                &&& message.status is Error
                &&& error@ == message@.status->Error_0
                &&& project_id == old(table)@[message@.correlation_id].queued.project_id
                &&& user_id == old(table)@[message@.correlation_id].queued.user_id
                &&& final(table)@ == old(table)@.remove(message@.correlation_id)
            },
            ResponseOutcome::StepSaved { version, project_id, user_id, next } => {
                let job = old(table)@[message@.correlation_id];
                &&& old(table)@.contains_key(message@.correlation_id)
                &&& message.status is Success
                &&& project_id == job.queued.project_id
                &&& user_id == job.queued.user_id
                &&& version@ == (ImageVersionV {
                    id: job.queued.new_image_uuid,
                    original_image_id: job.queued.original_image_uuid,
                    project_id: job.queued.project_id,
                    tool_id: job.tool_id,
                    text_result: if (message@.status->Success_0).kind is Text {
                        (message@.status->Success_0).text
                    } else {
                        None
                    },
                    created_at: now@,
                })
                &&& match next {
                    Some(q) => job.queued.missing_tools.len() > 0 && q@ == (QueuedV {
                        new_image_uuid: q.new_image_uuid,
                        original_image_uuid: job.queued.original_image_uuid,
                        project_id: job.queued.project_id,
                        user_id: job.queued.user_id,
                        image_input_uri: job.queued.image_output_uri,
                        image_output_uri: version_output_uri_str(
                            image_root@,
                            job.queued.project_id,
                            job.queued.original_image_uuid,
                            q.new_image_uuid,
                        ),
                        missing_tools: job.queued.missing_tools,
                    }) && q.wf(),
                    None => job.queued.missing_tools.len() == 0,
                }
                &&& final(table)@ == old(table)@.remove(message@.correlation_id)
            },
        },
{
    let found = table.remove(&message.correlation_id);
    match found {
        None => ResponseOutcome::UnknownCorrelation,
        Some(job) => {
            let project_id = job.queued.project_id;
            let user_id = job.queued.user_id;
            match message.status {
                ResponseStatus::Error { error } => ResponseOutcome::ChainFailed {
                    project_id,
                    user_id,
                    error,
                },
                ResponseStatus::Success { output } => {
                    let text_result: Option<String> = match output.kind {
                        OutputType::Text => output.text,
                        OutputType::Image => None,
                    };
                    let version = ImageVersion {
                        id: job.queued.new_image_uuid,
                        original_image_id: job.queued.original_image_uuid,
                        project_id,
                        tool_id: job.tool_id,
                        text_result,
                        created_at: now,
                    };
                    let next: Option<QueuedImageApplyTool> = if job.queued.missing_tools.len()
                        > 0 {
                        Some(
                            QueuedImageApplyTool::new_generate_output_uri(
                                project_id,
                                user_id,
                                job.queued.original_image_uuid,
                                job.queued.image_output_uri,
                                job.queued.missing_tools,
                                image_root,
                            ),
                        )
                    } else {
                        None
                    };
                    ResponseOutcome::StepSaved { version, project_id, user_id, next }
                },
            }
        },
    }
}

/// The correlation protocol between the in-flight table and the broker,
/// as a mathematical state: what the table holds, which unacknowledged
/// messages carry each correlation id (the request in its tool queue, then
/// the response in the results queue), and whether a response has been
/// pulled but not yet processed.
pub struct ProtocolState {
    /// The in-flight table's contents, keyed by correlation text.
    pub inflight: Map<Seq<char>, InFlightJobV>,
    /// The unacknowledged broker messages, by correlation text.
    pub unacked: Multiset<Seq<char>>,
    /// The correlation of a response pulled and acknowledged but not yet
    /// processed.
    pub pulled: Option<Seq<char>>,
}

/// For every in-flight job, exactly one unacknowledged message with its
/// correlation id exists, or its response has been pulled and awaits
/// processing.
pub open spec fn protocol_inv(s: ProtocolState) -> bool {
    forall|k: Seq<char>|
        #[trigger] s.inflight.contains_key(k) ==> (s.unacked.count(k) == 1 && s.pulled != Some(
            k,
        )) || (s.unacked.count(k) == 0 && s.pulled == Some(k))
}

/// Publishing a request under a fresh correlation id — the insert
/// `add_to_queue` performs followed by the broker publish — keeps the
/// protocol: the new job's one unacknowledged message is its request. A
/// worker that consumes the request, publishes the response and then
/// acknowledges leaves the count at one, so the invariant carries through
/// to the response's arrival.
pub proof fn lemma_protocol_publish(s: ProtocolState, k: Seq<char>, job: InFlightJobV)
    requires
        protocol_inv(s),
        !s.inflight.contains_key(k),
        s.unacked.count(k) == 0,
        s.pulled != Some(k),
    ensures
        protocol_inv(
            ProtocolState {
                inflight: s.inflight.insert(k, job),
                unacked: s.unacked.insert(k),
                pulled: s.pulled,
            },
        ),
{
    let after = ProtocolState {
        inflight: s.inflight.insert(k, job),
        unacked: s.unacked.insert(k),
        pulled: s.pulled,
    };
    assert forall|k2: Seq<char>| #[trigger] after.inflight.contains_key(k2) implies (
    after.unacked.count(k2) == 1 && after.pulled != Some(k2)) || (after.unacked.count(k2) == 0
        && after.pulled == Some(k2)) by {
        if k2 == k {
            assert(after.unacked.count(k) == s.unacked.count(k) + 1);
        } else {
            assert(s.inflight.contains_key(k2));
            assert(after.unacked.count(k2) == s.unacked.count(k2));
        }
    }
}

/// Pulling one response off the results queue and acknowledging it — what
/// `next_result_message` does — keeps the protocol: the pulled job's
/// message count drops to zero while its correlation is held as pulled.
pub proof fn lemma_protocol_pull(s: ProtocolState, k: Seq<char>)
    requires
        protocol_inv(s),
        s.pulled is None,
        s.unacked.count(k) >= 1,
    ensures
        protocol_inv(
            ProtocolState { inflight: s.inflight, unacked: s.unacked.remove(k), pulled: Some(k) },
        ),
{
    let after = ProtocolState {
        inflight: s.inflight,
        unacked: s.unacked.remove(k),
        pulled: Some(k),
    };
    assert forall|k2: Seq<char>| #[trigger] after.inflight.contains_key(k2) implies (
    after.unacked.count(k2) == 1 && after.pulled != Some(k2)) || (after.unacked.count(k2) == 0
        && after.pulled == Some(k2)) by {
        assert(s.inflight.contains_key(k2));
        if k2 == k {
            assert(after.unacked.count(k2) == s.unacked.count(k2) - 1);
        } else {
            assert(after.unacked.count(k2) == s.unacked.count(k2));
        }
    }
}

/// Processing the pulled response — what `handle_response` decides —
/// removes its job, or nothing for an unknown correlation; either way the
/// protocol holds for every job that remains.
pub proof fn lemma_protocol_process(s: ProtocolState, k: Seq<char>)
    requires
        protocol_inv(s),
        s.pulled == Some(k),
        s.unacked.count(k) == 0,
    ensures
        protocol_inv(
            ProtocolState { inflight: s.inflight.remove(k), unacked: s.unacked, pulled: None },
        ),
        protocol_inv(ProtocolState { inflight: s.inflight, unacked: s.unacked, pulled: None })
            || s.inflight.contains_key(k),
{
    let after = ProtocolState { inflight: s.inflight.remove(k), unacked: s.unacked, pulled: None };
    assert forall|k2: Seq<char>| #[trigger] after.inflight.contains_key(k2) implies (
    after.unacked.count(k2) == 1 && after.pulled != Some(k2)) || (after.unacked.count(k2) == 0
        && after.pulled == Some(k2)) by {
        assert(s.inflight.contains_key(k2) && k2 != k);
        assert(s.pulled != Some(k2));
    }
    if !s.inflight.contains_key(k) {
        let kept = ProtocolState { inflight: s.inflight, unacked: s.unacked, pulled: None };
        assert forall|k2: Seq<char>| #[trigger] kept.inflight.contains_key(k2) implies (
        kept.unacked.count(k2) == 1 && kept.pulled != Some(k2)) || (kept.unacked.count(k2) == 0
            && kept.pulled == Some(k2)) by {
            assert(s.inflight.contains_key(k2));
            if k2 == k {
                assert(false);
            } else {
                assert(s.pulled != Some(k2));
            }
        }
    }
}

/// A copy of a tool list with the same mathematical form.
pub fn clone_tool_list(tools: &Vec<(u128, RequestedTool)>) -> (r: Vec<(u128, RequestedTool)>)
    ensures
        r@.map_values(|p: (u128, RequestedTool)| (p.0, p.1@)) == tools@.map_values(
            |p: (u128, RequestedTool)| (p.0, p.1@),
        ),
{
    let mut r: Vec<(u128, RequestedTool)> = Vec::new();
    let mut k: usize = 0;
    while k < tools.len()
        invariant
            k <= tools@.len(),
            r@.len() == k,
            forall|i: int|
                0 <= i < k ==> (#[trigger] r@[i]).0 == tools@[i].0 && r@[i].1@ == tools@[i].1@,
        decreases tools@.len() - k,
    {
        let copy = clone_requested_tool(&tools[k].1);
        r.push((tools[k].0, copy));
        k = k + 1;
    }
    proof {
        assert(r@.map_values(|p: (u128, RequestedTool)| (p.0, p.1@)) =~= tools@.map_values(
            |p: (u128, RequestedTool)| (p.0, p.1@),
        ));
    }
    r
}

/// The requested form of each tool row, with its id, in list order.
pub open spec fn requested_of_tools(ts: Seq<ToolV>) -> Seq<(u128, RequestedToolV)> {
    ts.map_values(
        |t: ToolV|
            (t.id, RequestedToolV { procedure: t.procedure, parameters: t.parameters->Obj_0 }),
    )
}

/// Builds one fresh chain per source image, carrying the project's whole
/// tool list; with an empty tool list every chain is empty, so enqueuing
/// them publishes nothing and records nothing.
pub fn apply_added_tools(
    project_uuid: u128,
    user_uuid: u128,
    images: &Vec<Image>,
    tools: &Vec<Tool>,
    image_root: &str,
) -> (r: Vec<QueuedImageApplyTool>)
    requires
        forall|i: int| 0 <= i < tools@.len() ==> (#[trigger] tools@[i]).wf(),
    ensures
        r@.len() == images@.len(),
        forall|i: int|
            0 <= i < r@.len() ==> {
                let q = #[trigger] r@[i];
                &&& q@.original_image_uuid == images@[i].id
                &&& q@.project_id == project_uuid
                &&& q@.user_id == user_uuid
                &&& q@.image_input_uri == crate::paths::image_uri_str(
                    image_root@,
                    images@[i].project_id,
                    images@[i].id,
                    images@[i].name@,
                )
                &&& q@.image_output_uri == version_output_uri_str(
                    image_root@,
                    project_uuid,
                    images@[i].id,
                    q.new_image_uuid,
                )
                &&& q@.missing_tools == requested_of_tools(tools@.map_values(|t: Tool| t@))
                &&& q.wf()
            },
{
    let mut requested: Vec<(u128, RequestedTool)> = Vec::new();
    let mut k: usize = 0;
    while k < tools.len()
        invariant
            forall|i: int| 0 <= i < tools@.len() ==> (#[trigger] tools@[i]).wf(),
            k <= tools@.len(),
            requested@.len() == k,
            forall|i: int|
                0 <= i < k ==> (#[trigger] requested@[i]).0 == tools@[i].id && requested@[i].1@
                    == (RequestedToolV {
                    procedure: tools@[i]@.procedure,
                    parameters: tools@[i]@.parameters->Obj_0,
                }) && requested@[i].1.wf(),
        decreases tools@.len() - k,
    {
        let rt = tools[k].to_requested_tool();
        requested.push((tools[k].id, rt));
        k = k + 1;
    }
    let mut chains: Vec<QueuedImageApplyTool> = Vec::new();
    let mut m: usize = 0;
    while m < images.len()
        invariant
            forall|i: int|
                0 <= i < requested@.len() ==> (#[trigger] requested@[i]).0
                    == tools@[i].id && requested@[i].1@ == (RequestedToolV {
                    procedure: tools@[i]@.procedure,
                    parameters: tools@[i]@.parameters->Obj_0,
                }) && requested@[i].1.wf(),
            requested@.len() == tools@.len(),
            m <= images@.len(),
            chains@.len() == m,
            forall|i: int|
                0 <= i < m ==> {
                    let q = #[trigger] chains@[i];
                    &&& q@.original_image_uuid == images@[i].id
                    &&& q@.project_id == project_uuid
                    &&& q@.user_id == user_uuid
                    &&& q@.image_input_uri == crate::paths::image_uri_str(
                        image_root@,
                        images@[i].project_id,
                        images@[i].id,
                        images@[i].name@,
                    )
                    &&& q@.image_output_uri == version_output_uri_str(
                        image_root@,
                        project_uuid,
                        images@[i].id,
                        q.new_image_uuid,
                    )
                    &&& q@.missing_tools == requested_of_tools(tools@.map_values(|t: Tool| t@))
                    &&& q.wf()
                },
        decreases images@.len() - m,
    {
        let image_input_uri = images[m].get_uri(image_root);
        let missing_tools = clone_tool_list(&requested);
        let chain = QueuedImageApplyTool::new_generate_output_uri(
            project_uuid,
            user_uuid,
            images[m].id,
            image_input_uri,
            missing_tools,
            image_root,
        );
        proof {
            assert(chain@.missing_tools =~= requested_of_tools(tools@.map_values(|t: Tool| t@)));
        }
        chains.push(chain);
        m = m + 1;
    }
    chains
}

/// The images whose id is among `ids`, in order.
pub open spec fn kept_images(ims: Seq<ImageV>, ids: Seq<u128>) -> Seq<ImageV>
    decreases ims.len(),
{
    if ims.len() == 0 {
        ims
    } else {
        let rest = kept_images(ims.drop_last(), ids);
        if ids.contains(ims.last().id) {
            rest.push(ims.last())
        } else {
            rest
        }
    }
}

/// Keeps the images whose id is in `filter`, in order; with no filter, all.
pub fn filter_images(images: Vec<Image>, filter: &Option<Vec<u128>>) -> (r: Vec<Image>)
    ensures
        match filter {
            None => r@.map_values(|im: Image| im@) == images@.map_values(|im: Image| im@),
            Some(ids) => r@.map_values(|im: Image| im@) == kept_images(
                images@.map_values(|im: Image| im@),
                ids@,
            ),
        },
{
    match filter {
        None => images,
        Some(ids) => {
            let mut r: Vec<Image> = Vec::new();
            let mut k: usize = 0;
            while k < images.len()
                invariant
                    k <= images@.len(),
                    r@.map_values(|im: Image| im@) == kept_images(
                        images@.map_values(|im: Image| im@).subrange(0, k as int),
                        ids@,
                    ),
                decreases images@.len() - k,
            {
                let ghost all = images@.map_values(|im: Image| im@);
                let ghost prefix = all.subrange(0, k as int);
                let mut keep = false;
                let mut j: usize = 0;
                while j < ids.len()
                    invariant
                        j <= ids@.len(),
                        keep == exists|a: int| 0 <= a < j && ids@[a] == images@[k as int].id,
                        k < images@.len(),
                    decreases ids@.len() - j,
                {
                    if ids[j] == images[k].id {
                        keep = true;
                    }
                    j = j + 1;
                }
                proof {
                    assert(keep == ids@.contains(images@[k as int].id));
                }
                if keep {
                    let copy = Image {
                        id: images[k].id,
                        name: images[k].name.clone(),
                        project_id: images[k].project_id,
                    };
                    r.push(copy);
                }
                k = k + 1;
                proof {
                    let next = all.subrange(0, k as int);
                    assert(next.drop_last() =~= prefix);
                    assert(next.last() == all[k - 1]);
                    assert(all[k - 1].id == images@[k - 1].id);
                    assert(r@.map_values(|im: Image| im@) =~= kept_images(next, ids@));
                }
            }
            proof {
                let all = images@.map_values(|im: Image| im@);
                assert(all.subrange(0, all.len() as int) =~= all);
            }
            r
        },
    }
}

/// Tool positions form the contiguous sequence `1..n` in list order.
pub open spec fn positions_contiguous(ts: Seq<ToolV>) -> bool {
    forall|i: int| 0 <= i < ts.len() ==> (#[trigger] ts[i]).position == i + 1
}

/// The tool row appended at the end of a project's list: its position is one
/// past the last, so a contiguous list stays contiguous.
pub fn add_tool(
    project_uuid: u128,
    requested_tool: RequestedTool,
    existing: &Vec<Tool>,
    new_id: u128,
) -> (t: Tool)
    requires
        positions_contiguous(existing@.map_values(|t: Tool| t@)),
        existing@.len() + 1 <= i32::MAX,
        requested_tool.wf(),
    ensures
        t@.id == new_id,
        t@.project_id == project_uuid,
        t@.position == existing@.len() + 1,
        t@.procedure == requested_tool@.procedure,
        t@.parameters == JsonV::Obj(requested_tool@.parameters),
        t.wf(),
        positions_contiguous(existing@.map_values(|t2: Tool| t2@).push(t@)),
{
    let position = existing.len() as i32 + 1;
    let t = Tool {
        id: new_id,
        project_id: project_uuid,
        position,
        procedure: requested_tool.procedure,
        parameters: Json::Obj(requested_tool.parameters),
    };
    proof {
        let before = existing@.map_values(|t2: Tool| t2@);
        assert forall|i: int| 0 <= i < before.push(t@).len() implies (#[trigger] before.push(t@)[i]).position
            == i + 1 by {
            if i < before.len() {
                assert(before.push(t@)[i] == before[i]);
            }
        }
    }
    t
}

/// The replacement tool rows for a project: the requested tools in order,
/// at positions `1..n`; replacing the list also clears all existing image
/// versions, which the caller performs before inserting these rows.
pub fn update_tools(project_uuid: u128, tools: &Vec<RequestedTool>, ids: &Vec<u128>) -> (r: Vec<
    Tool,
>)
    requires
        ids@.len() == tools@.len(),
        tools@.len() <= i32::MAX - 1,
        forall|i: int| 0 <= i < tools@.len() ==> (#[trigger] tools@[i]).wf(),
    ensures
        r@.len() == tools@.len(),
        forall|i: int|
            0 <= i < r@.len() ==> {
                let t = #[trigger] r@[i];
                &&& t@.id == ids@[i]
                &&& t@.project_id == project_uuid
                &&& t@.position == i + 1
                &&& t@.procedure == tools@[i]@.procedure
                &&& t@.parameters == JsonV::Obj(tools@[i]@.parameters)
                &&& t.wf()
            },
        positions_contiguous(r@.map_values(|t: Tool| t@)),
{
    let mut r: Vec<Tool> = Vec::new();
    let mut k: usize = 0;
    while k < tools.len()
        invariant
            ids@.len() == tools@.len(),
            tools@.len() <= i32::MAX - 1,
            forall|i: int| 0 <= i < tools@.len() ==> (#[trigger] tools@[i]).wf(),
            k <= tools@.len(),
            r@.len() == k,
            forall|i: int|
                0 <= i < k ==> {
                    let t = #[trigger] r@[i];
                    &&& t@.id == ids@[i]
                    &&& t@.project_id == project_uuid
                    &&& t@.position == i + 1
                    &&& t@.procedure == tools@[i]@.procedure
                    &&& t@.parameters == JsonV::Obj(tools@[i]@.parameters)
                    &&& t.wf()
                },
        decreases tools@.len() - k,
    {
        let rt = clone_requested_tool(&tools[k]);
        let t = Tool {
            id: ids[k],
            project_id: project_uuid,
            position: k as i32 + 1,
            procedure: rt.procedure,
            parameters: Json::Obj(rt.parameters),
        };
        r.push(t);
        k = k + 1;
    }
    r
}

/// An image version together with its public download URL.
#[derive(Debug)]
pub struct ImageVersionWithUrl {
    /// The persisted version.
    pub image_version: ImageVersion,
    /// Where a client can fetch the version's bytes.
    pub url: String,
}

impl ImageVersionWithUrl {
    /// The push-notification form of a version: the row and its URL
    /// `<public_url>/api/v1/projects/<project_id>/tools/images/<version_id>`.
    pub fn from_image_version(image_version: ImageVersion, public_url: &str) -> (r:
        ImageVersionWithUrl)
        ensures
            r.image_version == image_version,
            r.url@ == public_url@ + "/api/v1/projects/"@ + id_str(image_version.project_id)
                + "/tools/images/"@ + id_str(image_version.id),
    {
        let mut out: Vec<char> = Vec::new();
        crate::json::append_lit(&mut out, public_url);
        crate::json::append_lit(&mut out, "/api/v1/projects/");
        crate::paths::append_id(&mut out, image_version.project_id);
        crate::json::append_lit(&mut out, "/tools/images/");
        crate::paths::append_id(&mut out, image_version.id);
        let url = crate::text::chars_to_string(&out);
        ImageVersionWithUrl { image_version, url }
    }
}

} // verus!
