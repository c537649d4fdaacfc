//! Objects and their store: what an object is in memory, the identity that its
//! content gives it, where it is kept under the metadata root, and how it is
//! written there and read back.

use vstd::prelude::*;
use vstd::string::StrSliceExecFns;
use vstd::string::StringExecFns;
use vstd::string::StringSliceAdditionalSpecFns;
use crate::envelope::decode;
use crate::envelope::encode;
use crate::envelope::lemma_decode_encode;
use crate::envelope::lemma_encode_injective;
use crate::envelope::spec_decode;
use crate::envelope::spec_encode;
use crate::envelope::ObjectFormat;
use crate::error::KitError;
use crate::outside::is_lower_hex;
use crate::outside::sha1_digest_hex;
use crate::outside::sha1_hex;
use crate::outside::zlib_compress;
use crate::outside::zlib_decompress;
use crate::outside::zlib_inflated;
use crate::outside::zlib_stream;
use crate::repo::parent_name;
use crate::repo::path;
use crate::repo::repo_result;
use crate::repo::spec_file;
use crate::repo::spec_join;
use crate::repo::spec_parent_name;
use crate::repo::step_views;
use crate::repo::text_views;
use crate::repo::KitRepository;
use crate::repo::PathKind;
use crate::repo::RepoView;
use crate::repo::Step;
use crate::repo::StepView;

verus! {

/// An object in memory: its kind, the repository it belongs to, and its
/// payload, which is absent until the object is filled.
#[derive(Clone, Debug)]
pub enum KitObject {
    Commit { repo: KitRepository, data: Option<Vec<u8>> },
    Tree { repo: KitRepository, data: Option<Vec<u8>> },
    Tag { repo: KitRepository, data: Option<Vec<u8>> },
    Blob { repo: KitRepository, data: Option<Vec<u8>> },
}

/// A [`KitObject`] as the contracts see it.
pub struct ObjectView {
    pub format: ObjectFormat,
    pub repo: RepoView,
    pub data: Option<Seq<u8>>,
}

/// The view of a payload that may be absent.
pub open spec fn data_view(data: Option<Vec<u8>>) -> Option<Seq<u8>> {
    match data {
        Some(d) => Some(d@),
        None => None,
    }
}

impl View for KitObject {
    type V = ObjectView;

    open spec fn view(&self) -> ObjectView {
        match self {
            KitObject::Commit { repo, data } => ObjectView {
                format: ObjectFormat::Commit,
                repo: repo@,
                data: data_view(*data),
            },
            KitObject::Tree { repo, data } => ObjectView {
                format: ObjectFormat::Tree,
                repo: repo@,
                data: data_view(*data),
            },
            KitObject::Tag { repo, data } => ObjectView {
                format: ObjectFormat::Tag,
                repo: repo@,
                data: data_view(*data),
            },
            KitObject::Blob { repo, data } => ObjectView {
                format: ObjectFormat::Blob,
                repo: repo@,
                data: data_view(*data),
            },
        }
    }
}

impl KitObject {
    /// An object of the given kind.
    pub fn new(format: ObjectFormat, repo: KitRepository, data: Option<Vec<u8>>) -> (obj: KitObject)
        ensures
            obj@ == (ObjectView { format, repo: repo@, data: data_view(data) }),
    {
        match format {
            ObjectFormat::Commit => KitObject::Commit { repo, data },
            ObjectFormat::Tree => KitObject::Tree { repo, data },
            ObjectFormat::Tag => KitObject::Tag { repo, data },
            ObjectFormat::Blob => KitObject::Blob { repo, data },
        }
    }

    /// The repository that the object belongs to.
    pub fn repo(&self) -> (repo: &KitRepository)
        ensures
            repo@ == self@.repo,
    {
        match self {
            KitObject::Commit { repo, .. } => repo,
            KitObject::Tree { repo, .. } => repo,
            KitObject::Tag { repo, .. } => repo,
            KitObject::Blob { repo, .. } => repo,
        }
    }
}

/// The object's payload.
pub fn serialize(obj: &KitObject) -> (data: &Option<Vec<u8>>)
    ensures
        data_view(*data) == obj@.data,
{
    match obj {
        KitObject::Commit { data, .. } => data,
        KitObject::Tree { data, .. } => data,
        KitObject::Tag { data, .. } => data,
        KitObject::Blob { data, .. } => data,
    }
}

/// The same object with another payload.
pub fn deserialize(obj: KitObject, new_data: Option<Vec<u8>>) -> (filled: KitObject)
    ensures
        filled@ == (ObjectView {
            format: obj@.format,
            repo: obj@.repo,
            data: data_view(new_data),
        }),
{
    match obj {
        KitObject::Commit { repo, .. } => KitObject::Commit { repo, data: new_data },
        KitObject::Tree { repo, .. } => KitObject::Tree { repo, data: new_data },
        KitObject::Tag { repo, .. } => KitObject::Tag { repo, data: new_data },
        KitObject::Blob { repo, .. } => KitObject::Blob { repo, data: new_data },
    }
}

impl ObjectFormat {
    /// The kind that `s` names: `s` has to be one of the four canonical names,
    /// letter for letter.
    pub fn from_str(s: &str) -> (r: Result<ObjectFormat, KitError>)
        ensures
            r == match ObjectFormat::named(s.spec_bytes()) {
                Some(kind) => Ok::<ObjectFormat, KitError>(kind),
                None => Err(KitError::UnknownObjectKind),
            },
    {
        let bytes = s.as_bytes();
        assert(bytes@.subrange(0, bytes@.len() as int) =~= bytes@);
        match ObjectFormat::from_name(bytes, 0, bytes.len()) {
            Some(kind) => Ok(kind),
            None => Err(KitError::UnknownObjectKind),
        }
    }

    /// The kind of an object.
    pub fn from_obj(obj: &KitObject) -> (format: ObjectFormat)
        ensures
            format == obj@.format,
    {
        match obj {
            KitObject::Commit { .. } => ObjectFormat::Commit,
            KitObject::Tree { .. } => ObjectFormat::Tree,
            KitObject::Tag { .. } => ObjectFormat::Tag,
            KitObject::Blob { .. } => ObjectFormat::Blob,
        }
    }

    /// The canonical name as text.
    pub open spec fn name_text(self) -> Seq<char> {
        match self {
            ObjectFormat::Commit => "commit"@,
            ObjectFormat::Tree => "tree"@,
            ObjectFormat::Blob => "blob"@,
            ObjectFormat::Tag => "tag"@,
        }
    }

    /// The canonical name.
    pub fn as_str(&self) -> (name: &'static str)
        ensures
            name@ == self.name_text(),
            name.spec_bytes() == self.name(),
    {
        broadcast use vstd::string::is_ascii_spec_bytes;

        proof {
            reveal_strlit("commit");
            reveal_strlit("tree");
            reveal_strlit("blob");
            reveal_strlit("tag");
        }
        let name = match self {
            ObjectFormat::Commit => "commit",
            ObjectFormat::Tree => "tree",
            ObjectFormat::Blob => "blob",
            ObjectFormat::Tag => "tag",
        };
        assert(vstd::string::is_ascii(name));
        assert(name.spec_bytes() =~= self.name());
        name
    }

    /// The canonical name, owned.
    pub fn as_string(&self) -> (name: String)
        ensures
            name@ == self.name_text(),
    {
        String::from_str(self.as_str())
    }
}

/// The identity of a payload of the given kind: the SHA-1 digest of its
/// envelope, in hexadecimal.
pub open spec fn spec_identity(kind: ObjectFormat, payload: Seq<u8>) -> Seq<char> {
    sha1_hex(spec_encode(kind, payload))
}

/// Whether `sha` has the shape of an identity: forty characters, each a digit
/// or one of `a` to `f`.
pub open spec fn spec_is_identity(sha: Seq<char>) -> bool {
    sha.len() == 40 && forall|i: int| 0 <= i < 40 ==> is_lower_hex(#[trigger] sha[i])
}

/// The identity of `payload` as an object of kind `kind`.
pub fn identity(kind: ObjectFormat, payload: &[u8]) -> (sha: String)
    ensures
        sha@ == spec_identity(kind, payload@),
        spec_is_identity(sha@),
{
    let envelope = encode(kind, payload);
    sha1_digest_hex(envelope.as_slice())
}

/// Whether `sha` has the shape of an identity.
pub fn is_identity(sha: &str) -> (ok: bool)
    ensures
        ok == spec_is_identity(sha@),
{
    if sha.unicode_len() != 40 {
        return false;
    }
    let mut i: usize = 0;
    while i < 40
        invariant
            i <= 40,
            sha@.len() == 40,
            forall|j: int| 0 <= j < i ==> is_lower_hex(#[trigger] sha@[j]),
        decreases 40 - i,
    {
        let c = sha.get_char(i);
        if !(('0' <= c && c <= '9') || ('a' <= c && c <= 'f')) {
            return false;
        }
        i += 1;
    }
    true
}

/// Where an object is kept, as parts of a path under the metadata root:
/// `objects`, the identity's first two characters, and the other thirty-eight.
pub open spec fn spec_segments(sha: Seq<char>) -> Seq<Seq<char>> {
    seq!["objects"@, sha.subrange(0, 2), sha.subrange(2, sha.len() as int)]
}

/// The parts of the path at which the object `sha` is kept; `None` where `sha`
/// has not the shape of an identity.
pub fn object_segments(sha: &str) -> (parts: Option<Vec<String>>)
    ensures
        match parts {
            Some(p) => spec_is_identity(sha@) && text_views(p@) == spec_segments(sha@),
            None => !spec_is_identity(sha@),
        },
{
    if !is_identity(sha) {
        return None;
    }
    let mut parts: Vec<String> = Vec::new();
    parts.push(String::from_str("objects"));
    parts.push(String::from_str(sha.substring_char(0, 2)));
    parts.push(String::from_str(sha.substring_char(2, 40)));
    assert(text_views(parts@) =~= spec_segments(sha@));
    Some(parts)
}

/// The directory in which the object `sha` is kept.
pub open spec fn spec_object_dir(repo: RepoView, sha: Seq<char>) -> Seq<char> {
    spec_join(repo.kitdir, spec_parent_name(spec_segments(sha)))
}

/// The directory in which the object `sha` is kept, for the caller to look
/// at; `None` where `sha` has not the shape of an identity.
pub fn object_dir(repo: &KitRepository, sha: &str) -> (r: Option<String>)
    ensures
        match r {
            Some(d) => spec_is_identity(sha@) && d@ == spec_object_dir(repo@, sha@),
            None => !spec_is_identity(sha@),
        },
{
    match object_segments(sha) {
        Some(parts) => {
            let parent = parent_name(&parts);
            Some(path(repo, parent.as_str()))
        },
        None => None,
    }
}

/// The path of the file that holds the object `sha`, given what stands at its
/// directory. There is no object under a name that is no identity, nor where
/// the directory is not there.
pub open spec fn spec_object_path(repo: RepoView, sha: Seq<char>, found: PathKind) -> Result<
    Seq<char>,
    KitError,
> {
    if !spec_is_identity(sha) {
        Err(KitError::ObjectNotFound)
    } else {
        match spec_file(repo, spec_segments(sha), false, found) {
            Ok(at) => Ok(at.path),
            Err(_) => Err(KitError::ObjectNotFound),
        }
    }
}

/// The model of a path or a failure.
pub open spec fn path_result(r: Result<String, KitError>) -> Result<Seq<char>, KitError> {
    match r {
        Ok(p) => Ok(p@),
        Err(e) => Err(e),
    }
}

/// The path of the file to read the object `sha` from. `found` is what stands
/// at [`object_dir`]`(repo, sha)`.
pub fn object_path(repo: &KitRepository, sha: &str, found: PathKind) -> (r: Result<
    String,
    KitError,
>)
    ensures
        path_result(r) == spec_object_path(repo@, sha@, found),
{
    let parts = match object_segments(sha) {
        Some(parts) => parts,
        None => {
            return Err(KitError::ObjectNotFound);
        },
    };
    match crate::repo::file(repo, &parts, false, found) {
        Ok(at) => Ok(at.path),
        Err(_) => Err(KitError::ObjectNotFound),
    }
}

/// What a write comes to: the object's identity, and the steps that put it on
/// the disk, which are none where nothing was to be stored.
#[derive(Clone, Debug)]
pub struct Stored {
    pub sha: String,
    pub steps: Vec<Step>,
}

/// A [`Stored`] as the contracts see it.
pub struct StoredView {
    pub sha: Seq<char>,
    pub steps: Seq<StepView>,
}

impl View for Stored {
    type V = StoredView;

    open spec fn view(&self) -> StoredView {
        StoredView { sha: self.sha@, steps: step_views(self.steps@) }
    }
}

/// The model of what a write returns.
pub open spec fn stored_result(r: Result<Stored, KitError>) -> Result<StoredView, KitError> {
    match r {
        Ok(stored) => Ok(stored@),
        Err(e) => Err(e),
    }
}

/// The steps that store `stream` as the object `sha`, given what stands where
/// the object's directory belongs, and given the compressor's output, which is
/// `None` where it failed.
///
/// A file in the directory's place is refused. Then a failed compressor is
/// reported. Otherwise the directory is created if it is missing, and the
/// stream is written into it.
pub open spec fn spec_store(
    repo: RepoView,
    sha: Seq<char>,
    found: PathKind,
    stream: Option<Seq<u8>>,
) -> Result<StoredView, KitError> {
    match spec_file(repo, spec_segments(sha), true, found) {
        Err(e) => Err(e),
        Ok(at) => match stream {
            None => Err(KitError::Io),
            Some(bytes) => Ok(
                StoredView {
                    sha,
                    steps: if at.create {
                        seq![StepView::MakeDir(at.dir), StepView::WriteBytes(at.path, bytes)]
                    } else {
                        seq![StepView::WriteBytes(at.path, bytes)]
                    },
                },
            ),
        },
    }
}

/// What [`plan_write`] returns: a name that is no identity is stored nowhere;
/// under an identity the steps are those of [`spec_store`].
pub open spec fn spec_plan_write(
    repo: RepoView,
    sha: Seq<char>,
    found: PathKind,
    stream: Option<Seq<u8>>,
) -> Result<StoredView, KitError> {
    if !spec_is_identity(sha) {
        Err(KitError::ObjectNotFound)
    } else {
        spec_store(repo, sha, found, stream)
    }
}

/// The compressor's output as the contracts see it.
pub open spec fn stream_view(stream: Result<Vec<u8>, std::io::Error>) -> Option<Seq<u8>> {
    match stream {
        Ok(bytes) => Some(bytes@),
        Err(_) => None,
    }
}

/// Plans the storing of `stream` as the object `sha`; see [`spec_plan_write`].
/// `found` is what stands where the object's directory belongs.
pub fn plan_write(
    repo: &KitRepository,
    sha: String,
    found: PathKind,
    stream: Result<Vec<u8>, std::io::Error>,
) -> (r: Result<Stored, KitError>)
    ensures
        stored_result(r) == spec_plan_write(repo@, sha@, found, stream_view(stream)),
{
    let parts = match object_segments(sha.as_str()) {
        Some(parts) => parts,
        None => {
            return Err(KitError::ObjectNotFound);
        },
    };
    let at = crate::repo::file(repo, &parts, true, found)?;
    let bytes = match stream {
        Ok(bytes) => bytes,
        Err(_) => {
            return Err(KitError::Io);
        },
    };
    let mut steps: Vec<Step> = Vec::new();
    if at.create {
        steps.push(Step::MakeDir(at.dir));
    }
    steps.push(Step::WriteBytes(at.path, bytes));
    let stored = Stored { sha, steps };
    assert(stored@.steps =~= spec_plan_write(
        repo@,
        sha@,
        found,
        stream_view(stream),
    )->Ok_0.steps);
    Ok(stored)
}

/// The payload that is hashed and stored for an object: its own, or none at
/// all where it has not been filled.
pub open spec fn spec_payload(obj: ObjectView) -> Seq<u8> {
    match obj.data {
        Some(d) => d,
        None => Seq::empty(),
    }
}

/// The envelope of an object.
pub open spec fn spec_envelope(obj: ObjectView) -> Seq<u8> {
    spec_encode(obj.format, spec_payload(obj))
}

/// Whether the compressor makes a stream of `envelope` that inflates to it
/// again.
pub open spec fn inflates_back(envelope: Seq<u8>) -> bool {
    match zlib_stream(envelope) {
        Some(stream) => zlib_inflated(stream) == Some(envelope),
        None => false,
    }
}

/// What [`write`] returns, given the compressor's output for the envelope,
/// which is `None` where it fails.
///
/// The identity is always that of the object's envelope. Without
/// `actually_write` there are no steps, and the compressor is not asked; with
/// it the steps are those of [`spec_store`].
pub open spec fn spec_write(
    obj: ObjectView,
    actually_write: bool,
    found: PathKind,
    stream: Option<Seq<u8>>,
) -> Result<StoredView, KitError> {
    let sha = spec_identity(obj.format, spec_payload(obj));
    if actually_write {
        spec_store(obj.repo, sha, found, stream)
    } else {
        Ok(StoredView { sha, steps: Seq::empty() })
    }
}

/// Computes the identity of `obj` and, where `actually_write` is set, plans
/// its storing. `found` is what stands where the object's directory belongs;
/// it is not looked at where nothing is to be stored.
///
/// The result is that of [`spec_write`] for what the compressor makes of the
/// envelope. An identity that comes back has the shape of one, and a stream
/// that is to be written inflates to the envelope again.
pub fn write(obj: &KitObject, actually_write: bool, found: PathKind) -> (r: Result<Stored, KitError>)
    ensures
        stored_result(r) == spec_write(
            obj@,
            actually_write,
            found,
            zlib_stream(spec_envelope(obj@)),
        ),
        r matches Ok(stored) ==> spec_is_identity(stored.sha@),
        actually_write && r is Ok ==> inflates_back(spec_envelope(obj@)),
{
    let format = ObjectFormat::from_obj(obj);
    let envelope = match serialize(obj) {
        Some(d) => encode(format, d.as_slice()),
        None => {
            let nothing: Vec<u8> = Vec::new();
            assert(nothing@ =~= Seq::<u8>::empty());
            encode(format, nothing.as_slice())
        },
    };
    let sha = sha1_digest_hex(envelope.as_slice());
    if actually_write {
        let stream = zlib_compress(envelope.as_slice());
        plan_write(obj.repo(), sha, found, stream)
    } else {
        let stored = Stored { sha, steps: Vec::new() };
        assert(stored@.steps =~= Seq::<StepView>::empty());
        Ok(stored)
    }
}

/// The model of an object or a failure.
pub open spec fn object_result(r: Result<KitObject, KitError>) -> Result<ObjectView, KitError> {
    match r {
        Ok(obj) => Ok(obj@),
        Err(e) => Err(e),
    }
}

/// The object that an inflated stream holds: what its envelope decodes to, in
/// the repository `repo`. `None` stands for a stream that did not inflate.
pub open spec fn spec_open(repo: RepoView, inflated: Option<Seq<u8>>) -> Result<
    ObjectView,
    KitError,
> {
    match inflated {
        None => Err(KitError::CorruptCompressedData),
        Some(bytes) => match spec_decode(bytes) {
            Ok((format, payload)) => Ok(ObjectView { format, repo, data: Some(payload) }),
            Err(e) => Err(e),
        },
    }
}

/// Makes an object of what the decompressor returned; see [`spec_open`].
pub fn open_envelope(repo: KitRepository, inflated: Result<Vec<u8>, std::io::Error>) -> (r: Result<
    KitObject,
    KitError,
>)
    ensures
        object_result(r) == spec_open(repo@, stream_view(inflated)),
{
    let bytes = match inflated {
        Ok(bytes) => bytes,
        Err(_) => {
            return Err(KitError::CorruptCompressedData);
        },
    };
    match decode(bytes.as_slice()) {
        Ok((format, payload)) => Ok(KitObject::new(format, repo, Some(payload))),
        Err(e) => Err(e),
    }
}

/// What [`read`] returns: nothing is found under a name that is no identity,
/// or where no file was there to read; otherwise the stored bytes are
/// inflated and opened.
pub open spec fn spec_read(repo: RepoView, sha: Seq<char>, stored: Option<Seq<u8>>) -> Result<
    ObjectView,
    KitError,
> {
    if !spec_is_identity(sha) {
        Err(KitError::ObjectNotFound)
    } else {
        match stored {
            None => Err(KitError::ObjectNotFound),
            Some(stream) => spec_open(repo, zlib_inflated(stream)),
        }
    }
}

/// Reads the object `sha` of `repo`. `stored` holds the bytes of the file at
/// the object's path, or `None` where there is no such file.
pub fn read(repo: KitRepository, sha: &str, stored: Option<Vec<u8>>) -> (r: Result<
    KitObject,
    KitError,
>)
    ensures
        object_result(r) == spec_read(repo@, sha@, data_view(stored)),
{
    if !is_identity(sha) {
        return Err(KitError::ObjectNotFound);
    }
    match stored {
        None => Err(KitError::ObjectNotFound),
        Some(stream) => {
            let inflated = zlib_decompress(stream.as_slice());
            open_envelope(repo, inflated)
        },
    }
}

/// The repository that a hash is to be stored in, given what a search for
/// one came to: none where nothing is to be stored, the one that was found
/// where something is, and an error where something is and none was found.
pub open spec fn spec_repository_for(found: Result<RepoView, KitError>, persist: bool) -> Result<
    Option<RepoView>,
    KitError,
> {
    if !persist {
        Ok(None)
    } else {
        match found {
            Ok(repo) => Ok(Some(repo)),
            Err(_) => Err(KitError::RepositoryRequiredForWrite),
        }
    }
}

/// The view of a repository that may be absent.
pub open spec fn repo_view(repo: Option<KitRepository>) -> Option<RepoView> {
    match repo {
        Some(r) => Some(r@),
        None => None,
    }
}

/// The model of what [`repository_for`] returns.
pub open spec fn chosen(r: Result<Option<KitRepository>, KitError>) -> Result<
    Option<RepoView>,
    KitError,
> {
    match r {
        Ok(repo) => Ok(repo_view(repo)),
        Err(e) => Err(e),
    }
}

/// Decides, before anything is read, which repository a hash goes to; see
/// [`spec_repository_for`]. `found` is what [`crate::repo::find`] returned.
pub fn repository_for(found: Result<KitRepository, KitError>, persist: bool) -> (r: Result<
    Option<KitRepository>,
    KitError,
>)
    ensures
        chosen(r) == spec_repository_for(repo_result(found), persist),
{
    if !persist {
        return Ok(None);
    }
    match found {
        Ok(repo) => Ok(Some(repo)),
        Err(_) => Err(KitError::RepositoryRequiredForWrite),
    }
}

/// What [`hash`] returns, given the compressor's output for the envelope,
/// which is `None` where it fails.
///
/// Without `persist` no repository is needed and there are no steps. With it,
/// a missing repository is an error, and otherwise the steps are those of
/// [`spec_store`].
pub open spec fn spec_hash(
    data: Seq<u8>,
    t: ObjectFormat,
    repo: Option<RepoView>,
    persist: bool,
    found: PathKind,
    stream: Option<Seq<u8>>,
) -> Result<StoredView, KitError> {
    if !persist {
        Ok(StoredView { sha: spec_identity(t, data), steps: Seq::empty() })
    } else {
        match repo {
            None => Err(KitError::RepositoryRequiredForWrite),
            Some(repo) => spec_store(repo, spec_identity(t, data), found, stream),
        }
    }
}

/// Computes the identity of `data` as an object of kind `t`, and plans its
/// storing where `persist` asks for it. `found` is what stands where the
/// object's directory belongs.
///
/// The result is that of [`spec_hash`] for what the compressor makes of the
/// envelope. An identity that comes back has the shape of one, and a stream
/// that is to be written inflates to the envelope again.
pub fn hash(
    data: Vec<u8>,
    t: ObjectFormat,
    repo: Option<KitRepository>,
    persist: bool,
    found: PathKind,
) -> (r: Result<Stored, KitError>)
    ensures
        stored_result(r) == spec_hash(
            data@,
            t,
            repo_view(repo),
            persist,
            found,
            zlib_stream(spec_encode(t, data@)),
        ),
        r matches Ok(stored) ==> spec_is_identity(stored.sha@),
        persist && r is Ok ==> inflates_back(spec_encode(t, data@)),
{
    if !persist {
        let sha = identity(t, data.as_slice());
        let stored = Stored { sha, steps: Vec::new() };
        assert(stored@.steps =~= Seq::<StepView>::empty());
        return Ok(stored);
    }
    match repo {
        None => Err(KitError::RepositoryRequiredForWrite),
        Some(repo) => {
            let obj = KitObject::new(t, repo, Some(data));
            write(&obj, true, found)
        },
    }
}

/// Resolves a name to an identity. Names are identities already: the name
/// comes back as it is.
pub fn find(repo: KitRepository, name: String, format: ObjectFormat, follow: bool) -> (sha: String)
    ensures
        sha == name,
{
    name
}

/// The identity depends on kind and payload alone, and two objects that
/// differ in kind or payload are hashed from different envelopes.
pub proof fn lemma_identity_of_content(
    kind: ObjectFormat,
    payload: Seq<u8>,
    other_kind: ObjectFormat,
    other_payload: Seq<u8>,
)
    ensures
        kind == other_kind && payload == other_payload ==> spec_identity(kind, payload)
            == spec_identity(other_kind, other_payload),
        kind != other_kind || payload != other_payload ==> spec_encode(kind, payload)
            != spec_encode(other_kind, other_payload),
{
    if spec_encode(kind, payload) == spec_encode(other_kind, other_payload) {
        lemma_encode_injective(kind, payload, other_kind, other_payload);
    }
}

/// A stream that inflates to an object's envelope is read back as that
/// object, payload and kind unchanged, under any identity.
pub proof fn lemma_read_back(
    repo: RepoView,
    sha: Seq<char>,
    kind: ObjectFormat,
    payload: Seq<u8>,
    stream: Seq<u8>,
)
    requires
        spec_is_identity(sha),
        zlib_inflated(stream) == Some(spec_encode(kind, payload)),
    ensures
        spec_read(repo, sha, Some(stream)) == Ok::<ObjectView, KitError>(
            ObjectView { format: kind, repo, data: Some(payload) },
        ),
{
    lemma_decode_encode(kind, payload);
}

/// What the compressor made of an object's envelope, where that inflates to
/// the envelope again, is read back as the object.
pub proof fn lemma_write_then_read(
    repo: RepoView,
    sha: Seq<char>,
    kind: ObjectFormat,
    payload: Seq<u8>,
)
    requires
        spec_is_identity(sha),
        inflates_back(spec_encode(kind, payload)),
    ensures
        spec_read(repo, sha, zlib_stream(spec_encode(kind, payload))) == Ok::<
            ObjectView,
            KitError,
        >(ObjectView { format: kind, repo, data: Some(payload) }),
{
    lemma_read_back(repo, sha, kind, payload, zlib_stream(spec_encode(kind, payload))->Some_0);
}

/// Storing succeeds unless a file stands in the directory's place or the
/// compressor fails, and fails in no other way; what is stored goes by the
/// name that was given.
pub proof fn lemma_store_outcomes(
    repo: RepoView,
    sha: Seq<char>,
    found: PathKind,
    stream: Option<Seq<u8>>,
)
    ensures
        match spec_store(repo, sha, found, stream) {
            Ok(stored) => found != PathKind::File && stream is Some && stored.sha == sha,
            Err(e) => if found == PathKind::File {
                e == KitError::NotADirectory
            } else {
                stream is None && e == KitError::Io
            },
        },
{
}

/// Hashing without storing needs no repository, succeeds, asks for nothing
/// to be done on the disk, and gives the identity that storing gives.
pub proof fn lemma_dry_hash(
    data: Seq<u8>,
    t: ObjectFormat,
    repo: RepoView,
    found: PathKind,
    stream: Option<Seq<u8>>,
)
    ensures
        spec_hash(data, t, None, false, found, None) == Ok::<StoredView, KitError>(
            StoredView { sha: spec_identity(t, data), steps: Seq::empty() },
        ),
        spec_hash(data, t, Some(repo), true, found, stream) matches Ok(stored) ==> stored.sha
            == spec_hash(data, t, None, false, found, None)->Ok_0.sha,
{
}

} // verus!
