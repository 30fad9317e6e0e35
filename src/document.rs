//! The version store: a document and its bounded, deduplicated history.
use vstd::prelude::*;
use vstd::string::*;

use crate::clock::{auto_save_due, auto_save_is_due, current_instant, UtcInstant};
use crate::content::{empty_body, utf8_len, Content};

verus! {

/// Most content versions kept per document, besides the baseline.
pub const MAX_VERSIONS: usize = 10;

/// Relies on uuid::Uuid::new_v4 for a random identifier, written by its
/// Display in the hyphenated form of 36 characters.
#[verifier::external_body]
pub(crate) fn fresh_id() -> (r: String)
    ensures
        r@.len() == 36,
{
    uuid::Uuid::new_v4().to_string()
}

/// One recorded state of a document's content.
#[derive(Debug, Clone)]
pub struct DocumentVersion {
    pub id: String,
    pub content: Content,
    pub created_at: UtcInstant,
    pub is_auto_save: bool,
    /// Byte length of the content's written form, taken at creation.
    pub size: usize,
    /// Seconds since the epoch at which this version was last touched.
    pub timestamp: i64,
}

impl View for DocumentVersion {
    type V = Seq<char>;

    /// The content this version holds.
    open spec fn view(&self) -> Seq<char> {
        self.content@
    }
}

/// The version that is created for `content` at `now` under identifier `id`.
pub open spec fn version_of(
    content: Content,
    is_auto_save: bool,
    now: UtcInstant,
    id: String,
) -> DocumentVersion {
    DocumentVersion {
        id,
        content,
        created_at: now,
        is_auto_save,
        size: utf8_len(content@) as usize,
        timestamp: now.secs,
    }
}

impl DocumentVersion {
    /// Creates the version of `content` at `now` under identifier `id`.
    pub fn new_at(content: Content, is_auto_save: bool, now: UtcInstant, id: String) -> (r:
        DocumentVersion)
        ensures
            r == version_of(content, is_auto_save, now, id),
    {
        let size = content.byte_len();
        DocumentVersion { id, content, created_at: now, is_auto_save, size, timestamp: now.secs }
    }

    /// Creates a version of `content` stamped with the current instant and a
    /// fresh random identifier.
    pub fn new(content: Content, is_auto_save: bool) -> (r: DocumentVersion)
        ensures
            exists|now: UtcInstant, id: String|
                #![trigger version_of(content, is_auto_save, now, id)]
                r == version_of(content, is_auto_save, now, id) && id@.len() == 36,
    {
        let now = current_instant();
        let id = fresh_id();
        Self::new_at(content, is_auto_save, now, id)
    }
}

/// A document: its current content and its version history.
///
/// `versions[0]` is the baseline version holding the empty body; the others
/// are distinct content states in the order they were first recorded.
#[derive(Debug, Clone)]
pub struct Document {
    pub id: String,
    pub title: String,
    pub content: Content,
    pub file_path: Option<String>,
    pub versions: Vec<DocumentVersion>,
    pub created_at: UtcInstant,
    pub updated_at: UtcInstant,
    pub is_dirty: bool,
    pub last_auto_save: Option<UtcInstant>,
    /// Seconds since the epoch of the last manual save.
    pub last_save_time: Option<i64>,
}

/// The contents of a history, oldest first.
pub open spec fn history(vs: Seq<DocumentVersion>) -> Seq<Seq<char>> {
    vs.map_values(|v: DocumentVersion| v@)
}

/// Index of the first entry of `h` at or after `i` equal to `c`, or -1.
pub open spec fn copy_index_from(h: Seq<Seq<char>>, c: Seq<char>, i: int) -> int
    decreases h.len() - i,
{
    if i >= h.len() {
        -1
    } else if h[i] == c {
        i
    } else {
        copy_index_from(h, c, i + 1)
    }
}

/// Index of the first entry after the baseline of `h` equal to `c`, or -1.
pub open spec fn copy_index(h: Seq<Seq<char>>, c: Seq<char>) -> int {
    copy_index_from(h, c, 1)
}

/// Whether an entry after the baseline of `h` equals `c`.
pub open spec fn holds_copy(h: Seq<Seq<char>>, c: Seq<char>) -> bool {
    exists|i: int| 1 <= i < h.len() && #[trigger] h[i] == c
}

/// The contents of a history after `c` is added: unchanged when an entry after
/// the baseline already equals `c`, else `c` appended and the oldest entries
/// after the baseline evicted beyond `MAX_VERSIONS`.
pub open spec fn history_after_add(h: Seq<Seq<char>>, c: Seq<char>) -> Seq<Seq<char>> {
    if copy_index(h, c) >= 1 {
        h
    } else {
        evict(h.push(c))
    }
}

/// No two versions after the baseline hold the same content.
pub open spec fn distinct_after_baseline(vs: Seq<DocumentVersion>) -> bool {
    forall|i: int, j: int|
        1 <= i < j < vs.len() ==> #[trigger] vs[i].content@ != #[trigger] vs[j].content@
}

/// Keeps the baseline and the newest `MAX_VERSIONS` versions after it.
pub open spec fn evict<T>(vs: Seq<T>) -> Seq<T> {
    if vs.len() > MAX_VERSIONS + 1 {
        seq![vs[0]] + vs.subrange(vs.len() - MAX_VERSIONS, vs.len() as int)
    } else {
        vs
    }
}

/// `b` is `a` with only its timestamp set to `t`.
pub open spec fn touched(a: DocumentVersion, b: DocumentVersion, t: i64) -> bool {
    &&& b.id == a.id
    &&& b.content == a.content
    &&& b.created_at == a.created_at
    &&& b.is_auto_save == a.is_auto_save
    &&& b.size == a.size
    &&& b.timestamp == t
}

/// The history after `content` is added at `now`, a new version taking
/// identifier `id`: a copy already held after the baseline is touched, else a
/// new version is appended and the oldest versions after the baseline are
/// evicted beyond `MAX_VERSIONS`.
pub open spec fn versions_after_add(
    vs: Seq<DocumentVersion>,
    content: Content,
    is_auto_save: bool,
    now: UtcInstant,
    id: String,
) -> Seq<DocumentVersion> {
    let k = copy_index(history(vs), content@);
    if k >= 1 {
        vs.update(
            k,
            DocumentVersion {
                id: vs[k].id,
                content: vs[k].content,
                created_at: vs[k].created_at,
                is_auto_save: vs[k].is_auto_save,
                size: vs[k].size,
                timestamp: now.secs,
            },
        )
    } else {
        evict(vs.push(version_of(content, is_auto_save, now, id)))
    }
}

/// Index, in the history after the addition, of the version that holds `c`.
pub open spec fn added_index(vs: Seq<DocumentVersion>, c: Seq<char>) -> int {
    let k = copy_index(history(vs), c);
    if k >= 1 {
        k
    } else {
        evict(vs.push(arbitrary())).len() - 1
    }
}

/// `post` is `pre` after `content` was added at `now`, a new version taking
/// identifier `id`.
pub open spec fn add_version_effect(
    pre: Document,
    post: Document,
    content: Content,
    is_auto_save: bool,
    now: UtcInstant,
    id: String,
) -> bool {
    let hit = copy_index(history(pre.versions@), content@) >= 1;
    &&& post.versions@ == versions_after_add(pre.versions@, content, is_auto_save, now, id)
    &&& post.id == pre.id
    &&& post.title == pre.title
    &&& post.file_path == pre.file_path
    &&& post.created_at == pre.created_at
    &&& if hit && is_auto_save {
        post.content == pre.content && post.updated_at == pre.updated_at
    } else {
        post.content == content && post.updated_at == now
    }
    &&& if is_auto_save {
        &&& post.last_auto_save == Some(now)
        &&& post.is_dirty == pre.is_dirty
        &&& post.last_save_time == pre.last_save_time
    } else {
        &&& post.last_auto_save == pre.last_auto_save
        &&& !post.is_dirty
        &&& post.last_save_time == Some(now.secs)
    }
}

proof fn lemma_copy_index_from(h: Seq<Seq<char>>, c: Seq<char>, i: int)
    requires
        0 <= i,
    ensures
        copy_index_from(h, c, i) == -1 <==> (forall|j: int| i <= j < h.len() ==> #[trigger] h[j] != c),
        copy_index_from(h, c, i) != -1 ==> i <= copy_index_from(h, c, i) < h.len() && h[copy_index_from(h, c, i)] == c,
    decreases h.len() - i,
{
    if i < h.len() {
        lemma_copy_index_from(h, c, i + 1);
    }
}

/// What every addition to a history keeps: the baseline stays first, the
/// history stays within `MAX_VERSIONS` versions after the baseline and keeps
/// no content twice there, a copy already held only has its timestamp touched,
/// a manual save makes the added content current and clean, and an auto-save
/// that hits a copy leaves the current content as it was.
pub proof fn lemma_add_version_laws(
    pre: Document,
    post: Document,
    content: Content,
    is_auto_save: bool,
    now: UtcInstant,
    id: String,
)
    requires
        add_version_effect(pre, post, content, is_auto_save, now, id),
    ensures
        pre.versions@.len() >= 1 ==> post.versions@.len() >= 1 && post.versions@[0]
            == pre.versions@[0],
        pre.versions@.len() <= MAX_VERSIONS + 1 ==> post.versions@.len() <= MAX_VERSIONS + 1,
        pre.well_formed() ==> post.well_formed(),
        holds_copy(history(pre.versions@), content@) ==> {
            let k = copy_index(history(pre.versions@), content@);
            &&& 1 <= k < pre.versions@.len()
            &&& post.versions@.len() == pre.versions@.len()
            &&& touched(pre.versions@[k], post.versions@[k], now.secs)
            &&& forall|i: int|
                0 <= i < pre.versions@.len() && i != k ==> post.versions@[i] == pre.versions@[i]
        },
        !is_auto_save ==> !post.is_dirty && post.content == content,
        is_auto_save && holds_copy(history(pre.versions@), content@) ==> post.content == pre.content,
        post.versions@[added_index(pre.versions@, content@)].content@ == content@,
        history(post.versions@) == history_after_add(history(pre.versions@), content@),
        0 <= added_index(pre.versions@, content@) < post.versions@.len(),
{
    let vs = pre.versions@;
    let c = content@;
    let h = history(vs);
    lemma_copy_index_from(h, c, 1);
    let k = copy_index(h, c);
    if k >= 1 {
        assert(holds_copy(h, c));
        assert(history(post.versions@) =~= h);
        if pre.well_formed() {
            assert forall|i: int| 0 <= i < vs.len() implies #[trigger] post.versions@[i].content@
                == vs[i].content@ by {}
        }
    } else {
        let s = vs.push(version_of(content, is_auto_save, now, id));
        assert(!holds_copy(h, c)) by {
            if holds_copy(h, c) {
                let j = choose|j: int| 1 <= j < h.len() && #[trigger] h[j] == c;
                assert(h[j] != c);
            }
        }
        assert(history(s) =~= h.push(c));
        assert(history(evict(s)) =~= evict(h.push(c)));
        assert(s[s.len() - 1].content@ == c);
        if pre.well_formed() {
            assert(distinct_after_baseline(s)) by {
                assert forall|i: int, j: int| 1 <= i < j < s.len() implies #[trigger] s[i].content@
                    != #[trigger] s[j].content@ by {
                    if j == s.len() - 1 {
                        assert(h[i] != c);
                    }
                }
            }
            let e = evict(s);
            assert(e[0] == vs[0]);
            assert forall|i: int, j: int| 1 <= i < j < e.len() implies #[trigger] e[i].content@
                != #[trigger] e[j].content@ by {
                if s.len() > MAX_VERSIONS + 1 {
                    let off = s.len() - MAX_VERSIONS - 1;
                    assert(e[i] == s[i + off]);
                    assert(e[j] == s[j + off]);
                } else {
                    assert(e[i] == s[i]);
                }
            }
        }
    }
}

/// Index of the first version at or after `i` whose identifier is `id`, or -1.
pub open spec fn id_index_from(vs: Seq<DocumentVersion>, id: Seq<char>, i: int) -> int
    decreases vs.len() - i,
{
    if i >= vs.len() {
        -1
    } else if vs[i].id@ == id {
        i
    } else {
        id_index_from(vs, id, i + 1)
    }
}

proof fn lemma_id_index_from(vs: Seq<DocumentVersion>, id: Seq<char>, i: int)
    requires
        0 <= i,
    ensures
        id_index_from(vs, id, i) == -1 <==> (forall|j: int|
            i <= j < vs.len() ==> #[trigger] vs[j].id@ != id),
        id_index_from(vs, id, i) != -1 ==> i <= id_index_from(vs, id, i) < vs.len()
            && vs[id_index_from(vs, id, i)].id@ == id,
    decreases vs.len() - i,
{
    if i < vs.len() {
        lemma_id_index_from(vs, id, i + 1);
    }
}

/// `r` is the document titled `title` created at `now` under identifier `id`,
/// with baseline identifier `baseline_id`, where `content`, unless it is the
/// empty body, was added as a manual save under identifier `version_id`.
pub open spec fn is_new_document(
    r: Document,
    title: String,
    content: Content,
    now: UtcInstant,
    id: String,
    baseline_id: String,
    version_id: String,
) -> bool {
    let b = r.versions@[0];
    &&& r.id == id
    &&& r.title == title
    &&& r.file_path is None
    &&& r.created_at == now
    &&& r.updated_at == now
    &&& !r.is_dirty
    &&& r.last_auto_save is None
    &&& r.versions@.len() >= 1
    &&& b.id == baseline_id && b.content@ == empty_body() && b.created_at == now
        && !b.is_auto_save && b.size == utf8_len(empty_body()) as usize && b.timestamp == now.secs
    &&& if content@ == empty_body() {
        &&& r.versions@.len() == 1
        &&& r.content@ == empty_body()
        &&& r.last_save_time is None
    } else {
        &&& r.versions@.len() == 2
        &&& r.versions@[1] == version_of(content, false, now, version_id)
        &&& r.content == content
        &&& r.last_save_time == Some(now.secs)
    }
}

/// `post` is `pre` after an auto-save attempt at `now` that returned `saved`,
/// a new version taking identifier `id`.
pub open spec fn auto_save_effect(
    pre: Document,
    post: Document,
    saved: bool,
    now: UtcInstant,
    id: String,
) -> bool {
    &&& saved == pre.auto_save_wanted(now)
    &&& !saved ==> post == pre
    &&& saved ==> post.is_dirty && add_version_effect(
        pre,
        post.with_dirty(pre.is_dirty),
        pre.content,
        true,
        now,
        id,
    )
}

/// `post` is `pre` after `content` was added at some instant, a new version
/// taking some identifier.
pub open spec fn version_added(pre: Document, post: Document, content: Content, is_auto_save: bool) -> bool {
    exists|now: UtcInstant, id: String|
        #[trigger] add_version_effect(pre, post, content, is_auto_save, now, id)
}

/// `docs[k + 1]` is `docs[k]` after `contents[k]` was added, as an auto-save
/// when `autos[k]`, for every step `k`.
pub open spec fn added_in_turn(docs: Seq<Document>, contents: Seq<Content>, autos: Seq<bool>) -> bool {
    &&& docs.len() == contents.len() + 1
    &&& autos.len() == contents.len()
    &&& forall|k: int|
        0 <= k < contents.len() ==> #[trigger] version_added(docs[k], docs[k + 1], contents[k], autos[k])
}

/// Along any sequence of additions, the baseline version stays first and
/// unchanged, and a history that starts well formed (baseline first, at most
/// `MAX_VERSIONS` versions after it, none holding the same content) stays so.
pub proof fn lemma_additions_keep_baseline(docs: Seq<Document>, contents: Seq<Content>, autos: Seq<bool>)
    requires
        added_in_turn(docs, contents, autos),
        docs[0].versions@.len() >= 1,
    ensures
        forall|k: int|
            0 <= k < docs.len() ==> #[trigger] docs[k].versions@.len() >= 1 && docs[k].versions@[0]
                == docs[0].versions@[0],
        docs[0].well_formed() ==> forall|k: int| 0 <= k < docs.len() ==> #[trigger] docs[k].well_formed(),
    decreases docs.len(),
{
    let n = docs.len();
    if n > 1 {
        let d = docs.drop_last();
        let c = contents.drop_last();
        let a = autos.drop_last();
        assert forall|k: int| 0 <= k < c.len() implies #[trigger] version_added(d[k], d[k + 1], c[k], a[k]) by {
            assert(version_added(docs[k], docs[k + 1], contents[k], autos[k]));
        }
        lemma_additions_keep_baseline(d, c, a);
        let last = n - 2;
        assert(version_added(docs[last], docs[last + 1], contents[last], autos[last]));
        let (now, id) = choose|now: UtcInstant, id: String|
            #[trigger] add_version_effect(docs[last], docs[last + 1], contents[last], autos[last], now, id);
        lemma_add_version_laws(docs[last], docs[last + 1], contents[last], autos[last], now, id);
        assert(d[last] == docs[last]);
        assert forall|k: int| 0 <= k < docs.len() implies #[trigger] docs[k].versions@.len() >= 1
            && docs[k].versions@[0] == docs[0].versions@[0] by {
            if k < n - 1 {
                assert(d[k] == docs[k]);
            }
        }
        if docs[0].well_formed() {
            assert forall|k: int| 0 <= k < docs.len() implies #[trigger] docs[k].well_formed() by {
                if k < n - 1 {
                    assert(d[k] == docs[k]);
                }
            }
        }
    }
}

/// `r` is a document newly created with title `title` and content `content`,
/// at some instant and under some identifiers.
pub open spec fn is_created(r: Document, title: Seq<char>, content: Content) -> bool {
    exists|t: String, now: UtcInstant, id: String, baseline_id: String, version_id: String|
        #[trigger] is_new_document(r, t, content, now, id, baseline_id, version_id) && t@ == title
}

/// Finds the first version after the baseline that holds `content`.
fn find_copy(versions: &Vec<DocumentVersion>, content: &Content) -> (r: Option<usize>)
    ensures
        match r {
            Some(k) => k == copy_index(history(versions@), content@),
            None => copy_index(history(versions@), content@) == -1,
        },
{
    let mut i: usize = 1;
    while i < versions.len()
        invariant
            1 <= i,
            copy_index(history(versions@), content@) == copy_index_from(history(versions@), content@, i as int),
        decreases versions.len() - i,
    {
        if versions[i].content == *content {
            return Some(i);
        }
        i = i + 1;
    }
    None
}

impl Document {
    /// The invariant of a document's history: the baseline first, at most
    /// `MAX_VERSIONS` versions after it, and no content held twice after it.
    pub open spec fn well_formed(&self) -> bool {
        &&& self.versions@.len() >= 1
        &&& self.versions@[0].content@ == empty_body()
        &&& self.versions@.len() <= MAX_VERSIONS + 1
        &&& distinct_after_baseline(self.versions@)
    }

    /// This document with its dirty flag set to `dirty`.
    pub open spec fn with_dirty(self, dirty: bool) -> Document {
        Document { is_dirty: dirty, ..self }
    }

    /// Marks the document as written to its primary location `path` at `now`.
    pub fn mark_saved(&mut self, path: String, now: UtcInstant)
        ensures
            *final(self) == (Document {
                file_path: Some(path),
                updated_at: now,
                is_dirty: false,
                last_save_time: Some(now.secs),
                ..*old(self)
            }),
    {
        self.updated_at = now;
        self.is_dirty = false;
        self.file_path = Some(path);
        self.last_save_time = Some(now.secs);
    }

    /// This document with its primary location set to `path`.
    pub open spec fn with_file_path(self, path: Option<String>) -> Document {
        Document { file_path: path, ..self }
    }

    /// Marks the document as read from its primary location `path`; nothing
    /// else changes, so a document reads back as it was saved.
    pub fn mark_loaded(&mut self, path: String)
        ensures
            *final(self) == old(self).with_file_path(Some(path)),
    {
        self.file_path = Some(path);
    }

    /// Marks the document as restored from a crash-recovery snapshot: its
    /// state is unsaved until the user confirms it.
    pub fn mark_recovered(&mut self)
        ensures
            *final(self) == old(self).with_dirty(true),
    {
        self.is_dirty = true;
    }

    /// Whether an auto-save of this document is due at `now`: the auto-save
    /// gate is open.
    pub open spec fn auto_save_wanted(&self, now: UtcInstant) -> bool {
        auto_save_is_due(self.last_auto_save, now)
    }

    /// Takes an auto-save at `now` when one is due: the current content is
    /// added as an auto-save version (a new one taking identifier
    /// `version_id`) and the document is marked dirty. Returns whether it was
    /// taken; when not, nothing changes.
    pub fn auto_save_at(&mut self, now: UtcInstant, version_id: String) -> (saved: bool)
        ensures
            auto_save_effect(*old(self), *final(self), saved, now, version_id),
    {
        if !auto_save_due(self.last_auto_save, now) {
            return false;
        }
        let c = self.content.clone();
        self.record(c, true, now, version_id);
        self.last_auto_save = Some(now);
        self.is_dirty = true;
        true
    }

    /// Takes an auto-save when one is due, stamped with the current instant;
    /// a new version takes a fresh random identifier. See `auto_save_at`.
    pub fn auto_save(&mut self) -> (saved: bool)
        ensures
            exists|now: UtcInstant, id: String|
                #[trigger] auto_save_effect(*old(self), *final(self), saved, now, id),
    {
        let now = current_instant();
        let id = fresh_id();
        self.auto_save_at(now, id)
    }

    /// Appends `v` and drops the oldest versions after the baseline beyond
    /// `MAX_VERSIONS`.
    fn push_and_evict(&mut self, v: DocumentVersion)
        ensures
            final(self).versions@ == evict(old(self).versions@.push(v)),
            final(self).id == old(self).id,
            final(self).title == old(self).title,
            final(self).content == old(self).content,
            final(self).file_path == old(self).file_path,
            final(self).created_at == old(self).created_at,
            final(self).updated_at == old(self).updated_at,
            final(self).is_dirty == old(self).is_dirty,
            final(self).last_auto_save == old(self).last_auto_save,
            final(self).last_save_time == old(self).last_save_time,
    {
        let ghost s = self.versions@.push(v);
        self.versions.push(v);
        assert(self.versions@ =~= seq![s[0]] + s.subrange(s.len() - (self.versions@.len() - 1), s.len() as int));
        while self.versions.len() > MAX_VERSIONS + 1 && self.versions.len() > 1
            invariant
                1 <= self.versions@.len() <= s.len(),
                self.versions@ == seq![s[0]] + s.subrange(
                    s.len() - (self.versions@.len() - 1),
                    s.len() as int,
                ),
                s.len() > MAX_VERSIONS + 1 ==> self.versions@.len() >= MAX_VERSIONS + 1,
                s.len() <= MAX_VERSIONS + 1 ==> self.versions@ == s,
                self.id == old(self).id,
                self.title == old(self).title,
                self.content == old(self).content,
                self.file_path == old(self).file_path,
                self.created_at == old(self).created_at,
                self.updated_at == old(self).updated_at,
                self.is_dirty == old(self).is_dirty,
                self.last_auto_save == old(self).last_auto_save,
                self.last_save_time == old(self).last_save_time,
            decreases self.versions@.len(),
        {
            self.versions.remove(1);
            assert(self.versions@ =~= seq![s[0]] + s.subrange(
                s.len() - (self.versions@.len() - 1),
                s.len() as int,
            ));
        }
        assert(self.versions@ =~= evict(s));
    }

    /// Creates a document titled `title` at `now` under identifier `id`. Its
    /// history starts with the baseline version (identifier `baseline_id`);
    /// content other than the empty body is then added as a manual save, a
    /// new version taking identifier `version_id`.
    pub fn new_at(
        title: String,
        content: Content,
        now: UtcInstant,
        id: String,
        baseline_id: String,
        version_id: String,
    ) -> (r: Document)
        ensures
            is_new_document(r, title, content, now, id, baseline_id, version_id),
            r.well_formed(),
    {
        let mut doc = Document {
            id,
            title,
            content: Content::empty(),
            file_path: None,
            versions: Vec::new(),
            created_at: now,
            updated_at: now,
            is_dirty: false,
            last_auto_save: None,
            last_save_time: None,
        };
        let baseline = DocumentVersion::new_at(Content::empty(), false, now, baseline_id);
        doc.versions.push(baseline);
        let ghost pre = doc;
        assert(distinct_after_baseline(doc.versions@));
        if !content.is_empty_body() {
            doc.record(content, false, now, version_id);
            proof {
                lemma_add_version_laws(pre, doc, content, false, now, version_id);
                lemma_copy_index_from(history(pre.versions@), content@, 1);
            }
        }
        doc
    }

    /// Creates a document titled `title`, stamped with the current instant and
    /// fresh random identifiers. See `new_at`.
    pub fn new(title: String, content: Content) -> (r: Document)
        ensures
            exists|now: UtcInstant, id: String, baseline_id: String, version_id: String|
                #![trigger is_new_document(r, title, content, now, id, baseline_id, version_id)]
                is_new_document(r, title, content, now, id, baseline_id, version_id),
            r.well_formed(),
            r.title == title,
            r.file_path is None,
            !r.is_dirty,
            r.last_auto_save is None,
            content@ == empty_body() ==> history(r.versions@) == seq![empty_body()] && r.content@
                == empty_body() && r.last_save_time is None,
            content@ != empty_body() ==> history(r.versions@) == seq![empty_body(), content@]
                && r.content == content && r.last_save_time is Some,
    {
        let now = current_instant();
        let id = fresh_id();
        let baseline_id = fresh_id();
        let version_id = fresh_id();
        let r = Self::new_at(title, content, now, id, baseline_id, version_id);
        assert(history(r.versions@) =~= if content@ == empty_body() {
            seq![empty_body()]
        } else {
            seq![empty_body(), content@]
        });
        r
    }

    /// The first version whose identifier is `version_id`, baseline included.
    pub fn get_version(&self, version_id: &str) -> (r: Option<&DocumentVersion>)
        ensures
            match r {
                Some(v) => {
                    let k = id_index_from(self.versions@, version_id@, 0);
                    0 <= k < self.versions@.len() && *v == self.versions@[k]
                },
                None => forall|i: int|
                    0 <= i < self.versions@.len() ==> #[trigger] self.versions@[i].id@
                        != version_id@,
            },
            r is Some <==> exists|i: int|
                0 <= i < self.versions@.len() && #[trigger] self.versions@[i].id@ == version_id@,
    {
        proof {
            lemma_id_index_from(self.versions@, version_id@, 0);
        }
        let target = String::from_str(version_id);
        let mut i: usize = 0;
        while i < self.versions.len()
            invariant
                target@ == version_id@,
                id_index_from(self.versions@, version_id@, 0) == id_index_from(
                    self.versions@,
                    version_id@,
                    i as int,
                ),
            decreases self.versions.len() - i,
        {
            if self.versions[i].id == target {
                return Some(&self.versions[i]);
            }
            i = i + 1;
        }
        None
    }

    /// Adds `content` to the history at `now`; a new version takes identifier
    /// `version_id`.
    ///
    /// A version after the baseline that already holds `content` has only its
    /// timestamp touched; otherwise a new version is appended and the oldest
    /// versions after the baseline are evicted beyond `MAX_VERSIONS`. A manual
    /// save makes `content` current and clears the dirty flag; an auto-save
    /// that hits an existing version leaves the current content alone.
    /// Returns the version that holds `content`.
    pub fn add_version_at(
        &mut self,
        content: Content,
        is_auto_save: bool,
        now: UtcInstant,
        version_id: String,
    ) -> (r: &DocumentVersion)
        ensures
            add_version_effect(*old(self), *final(self), content, is_auto_save, now, version_id),
            *r == final(self).versions@[added_index(old(self).versions@, content@)],
    {
        let k = self.record(content, is_auto_save, now, version_id);
        &self.versions[k]
    }

    /// Adds `content` to the history, stamped with the current instant; a new
    /// version takes a fresh random identifier. See `add_version_at`.
    pub fn add_version(&mut self, content: Content, is_auto_save: bool) -> (r: &DocumentVersion)
        ensures
            version_added(*old(self), *final(self), content, is_auto_save),
            *r == final(self).versions@[added_index(old(self).versions@, content@)],
            r.content@ == content@,
            history(final(self).versions@) == history_after_add(
                history(old(self).versions@),
                content@,
            ),
            // the baseline stays in place
            old(self).versions@.len() >= 1 ==> final(self).versions@.len() >= 1
                && final(self).versions@[0] == old(self).versions@[0],
            // the history stays bounded
            old(self).versions@.len() <= MAX_VERSIONS + 1 ==> final(self).versions@.len()
                <= MAX_VERSIONS + 1,
            old(self).well_formed() ==> final(self).well_formed(),
            // a copy already held only has its timestamp touched
            holds_copy(history(old(self).versions@), content@) ==> {
                let k = copy_index(history(old(self).versions@), content@);
                &&& final(self).versions@.len() == old(self).versions@.len()
                &&& touched(old(self).versions@[k], final(self).versions@[k], final(self).versions@[k].timestamp)
                &&& forall|i: int|
                    0 <= i < old(self).versions@.len() && i != k ==> final(self).versions@[i]
                        == old(self).versions@[i]
            },
            // a manual save makes the content current and clean
            !is_auto_save ==> !final(self).is_dirty && final(self).content == content,
            // an auto-save that hits a copy leaves the current content alone
            is_auto_save && holds_copy(history(old(self).versions@), content@) ==> final(self).content
                == old(self).content,
    {
        let now = current_instant();
        let id = fresh_id();
        let ghost pre = *self;
        let k = self.record(content, is_auto_save, now, id);
        proof {
            lemma_add_version_laws(pre, *self, content, is_auto_save, now, id);
        }
        &self.versions[k]
    }

    /// Records `content` at `now`, a new version taking identifier `id`;
    /// returns the index of the version that holds it.
    fn record(&mut self, content: Content, is_auto_save: bool, now: UtcInstant, id: String) -> (k:
        usize)
        ensures
            add_version_effect(*old(self), *final(self), content, is_auto_save, now, id),
            k == added_index(old(self).versions@, content@),
            k < final(self).versions@.len(),
    {
        proof {
            lemma_copy_index_from(history(self.versions@), content@, 1);
        }
        match find_copy(&self.versions, &content) {
            Some(k) => {
                self.versions[k].timestamp = now.secs;
                if !is_auto_save {
                    self.content = content;
                    self.updated_at = now;
                    self.last_save_time = Some(now.secs);
                    self.is_dirty = false;
                } else {
                    self.last_auto_save = Some(now);
                }
                k
            },
            None => {
                let version = DocumentVersion::new_at(content.clone(), is_auto_save, now, id);
                self.push_and_evict(version);
                self.content = content;
                self.updated_at = now;
                if is_auto_save {
                    self.last_auto_save = Some(now);
                } else {
                    self.last_save_time = Some(now.secs);
                    self.is_dirty = false;
                }
                self.versions.len() - 1
            },
        }
    }
}

} // verus!
