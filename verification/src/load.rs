//! Loading sources: `require` and `load`.
//!
//! A source is known by its path and is provided by a native initializer, by
//! a script, or by both. `require` runs a source at most once; `load` runs it
//! every time. Where both providers exist the native initializer runs first,
//! so that the script can build on what it defined.

use vstd::prelude::*;
use vstd::slice::slice_to_vec;
use crate::bytes::{bytes_of, copy_bytes, push_all, same_bytes, text};
use crate::error::ArtichokeError;
use crate::eval::Context;
use crate::interpreter::{Artichoke, ArtichokeView};
use crate::path::{located, locate};
use crate::task::{Answer, Native, Query, Task};
use crate::types::Ruby;
use crate::value::Value;

verus! {

/// What provides a source.
#[derive(Debug, PartialEq, Eq)]
pub enum Provider {
    Native(Native),
    Script(Vec<u8>),
}

/// One definition of a source: its path and what provides it.
#[derive(Debug, PartialEq, Eq)]
pub struct Source {
    path: Vec<u8>,
    provider: Provider,
}

pub enum ProviderView {
    Native(Native),
    Script(Seq<u8>),
}

pub struct SourceView {
    pub path: Seq<u8>,
    pub provider: ProviderView,
}

impl View for Source {
    type V = SourceView;

    closed spec fn view(&self) -> SourceView {
        SourceView {
            path: self.path@,
            provider: match self.provider {
                Provider::Native(native) => ProviderView::Native(native),
                Provider::Script(code) => ProviderView::Script(code@),
            },
        }
    }
}

/// The native initializer of the source at `path`: that of its latest
/// definition with one.
pub open spec fn native_of(sources: Seq<SourceView>, path: Seq<u8>) -> Option<Native>
    decreases sources.len(),
{
    if sources.len() == 0 {
        None
    } else {
        let latest = sources.last();
        if latest.path == path && latest.provider is Native {
            Some(latest.provider->Native_0)
        } else {
            native_of(sources.drop_last(), path)
        }
    }
}

/// The script of the source at `path`: that of its latest definition with
/// one.
pub open spec fn script_of(sources: Seq<SourceView>, path: Seq<u8>) -> Option<Seq<u8>>
    decreases sources.len(),
{
    if sources.len() == 0 {
        None
    } else {
        let latest = sources.last();
        if latest.path == path && latest.provider is Script {
            Some(latest.provider->Script_0)
        } else {
            script_of(sources.drop_last(), path)
        }
    }
}

/// Whether a source is defined at `path`.
pub open spec fn provided(sources: Seq<SourceView>, path: Seq<u8>) -> bool {
    native_of(sources, path) is Some || script_of(sources, path) is Some
}

/// `require` or `load`.
#[derive(Debug, Clone, Copy, PartialEq, Eq, Structural)]
pub enum Loading {
    /// Runs a source unless it was required before, and remembers it.
    Require,
    /// Runs a source whatever was required, and remembers nothing.
    Load,
}

/// The extension that `require` adds to a name that is defined without it.
pub open spec fn extension() -> Seq<u8> {
    text(".rb")
}

/// The path of the source that `name` stands for: where the name lies, if a
/// source is defined there, and for `require` else that path with the
/// extension added, if a source is defined there.
pub open spec fn resolved(
    sources: Seq<SourceView>,
    kind: Loading,
    base: Seq<u8>,
    name: Seq<u8>,
) -> Option<Seq<u8>> {
    let path = located(base, name);
    if provided(sources, path) {
        Some(path)
    } else if kind == Loading::Require && provided(sources, path + extension()) {
        Some(path + extension())
    } else {
        None
    }
}

/// The root below which relative names are searched.
pub open spec fn load_path() -> Seq<u8> {
    text("/src/lib")
}

/// The sources that can be loaded, and those that were required.
#[derive(Debug, PartialEq, Eq)]
pub struct Loader {
    sources: Vec<Source>,
    required: Vec<Vec<u8>>,
}

pub struct LoaderView {
    pub sources: Seq<SourceView>,
    pub required: Seq<Seq<u8>>,
}

impl View for Loader {
    type V = LoaderView;

    closed spec fn view(&self) -> LoaderView {
        LoaderView {
            sources: Seq::new(self.sources@.len(), |i: int| self.sources@[i]@),
            required: Seq::new(self.required@.len(), |i: int| self.required@[i]@),
        }
    }
}

/// `required` once `path` is required: `path` is added unless it is there.
pub open spec fn marked(required: Seq<Seq<u8>>, path: Seq<u8>) -> Seq<Seq<u8>> {
    if required.contains(path) {
        required
    } else {
        required.push(path)
    }
}

impl Loader {
    pub fn new() -> (loader: Self)
        ensures
            loader@ == (LoaderView { sources: Seq::empty(), required: Seq::empty() }),
    {
        let loader = Loader { sources: Vec::new(), required: Vec::new() };
        assert(loader@.sources =~= Seq::empty());
        assert(loader@.required =~= Seq::empty());
        loader
    }

    fn define(&mut self, path: &[u8], provider: Provider)
        ensures
            final(self)@.required == old(self)@.required,
            final(self)@.sources == old(self)@.sources.push(
                SourceView {
                    path: located(load_path(), path@),
                    provider: match provider {
                        Provider::Native(native) => ProviderView::Native(native),
                        Provider::Script(code) => ProviderView::Script(code@),
                    },
                },
            ),
    {
        let root = bytes_of("/src/lib");
        let source = Source { path: locate(root.as_slice(), path), provider };
        self.sources.push(source);
        assert(self@.sources =~= old(self)@.sources.push(source@));
        assert(self@.required =~= old(self)@.required);
    }

    /// Define the source at `path` as a script. A relative path lies below
    /// [`load_path`].
    pub fn def_rb_source_file(&mut self, path: &[u8], contents: &[u8])
        ensures
            final(self)@.required == old(self)@.required,
            final(self)@.sources == old(self)@.sources.push(
                SourceView {
                    path: located(load_path(), path@),
                    provider: ProviderView::Script(contents@),
                },
            ),
    {
        self.define(path, Provider::Script(slice_to_vec(contents)));
    }

    /// Define the source at `path` as a native initializer. A relative path
    /// lies below [`load_path`].
    pub fn def_file(&mut self, path: &[u8], native: Native)
        ensures
            final(self)@.required == old(self)@.required,
            final(self)@.sources == old(self)@.sources.push(
                SourceView {
                    path: located(load_path(), path@),
                    provider: ProviderView::Native(native),
                },
            ),
    {
        self.define(path, Provider::Native(native));
    }

    /// The native initializer of the source at `path`.
    pub fn native(&self, path: &[u8]) -> (r: Option<Native>)
        ensures
            r == native_of(self@.sources, path@),
    {
        let ghost all = self@.sources;
        let mut i: usize = self.sources.len();
        assert(all.subrange(0, i as int) =~= all);
        while i > 0
            invariant
                i <= self.sources.len(),
                all == self@.sources,
                native_of(all, path@) == native_of(all.subrange(0, i as int), path@),
            decreases i,
        {
            let ghost upto = all.subrange(0, i as int);
            assert(upto.drop_last() =~= all.subrange(0, i - 1));
            assert(upto.last() == self.sources[i - 1]@);
            i -= 1;
            if same_bytes(self.sources[i].path.as_slice(), path) {
                match &self.sources[i].provider {
                    Provider::Native(native) => {
                        return Some(*native);
                    },
                    Provider::Script(_) => {},
                }
            }
        }
        None
    }

    /// The script of the source at `path`.
    pub fn script(&self, path: &[u8]) -> (r: Option<Vec<u8>>)
        ensures
            match r {
                Some(code) => script_of(self@.sources, path@) == Some(code@),
                None => script_of(self@.sources, path@) is None,
            },
    {
        let ghost all = self@.sources;
        let mut i: usize = self.sources.len();
        assert(all.subrange(0, i as int) =~= all);
        while i > 0
            invariant
                i <= self.sources.len(),
                all == self@.sources,
                script_of(all, path@) == script_of(all.subrange(0, i as int), path@),
            decreases i,
        {
            let ghost upto = all.subrange(0, i as int);
            assert(upto.drop_last() =~= all.subrange(0, i - 1));
            assert(upto.last() == self.sources[i - 1]@);
            i -= 1;
            if same_bytes(self.sources[i].path.as_slice(), path) {
                match &self.sources[i].provider {
                    Provider::Script(code) => {
                        return Some(copy_bytes(code));
                    },
                    Provider::Native(_) => {},
                }
            }
        }
        None
    }

    /// Whether a source is defined at `path`.
    pub fn is_file(&self, path: &[u8]) -> (r: bool)
        ensures
            r == provided(self@.sources, path@),
    {
        self.native(path).is_some() || self.script(path).is_some()
    }

    /// Whether the source at `path` was required.
    pub fn is_required(&self, path: &[u8]) -> (r: bool)
        ensures
            r == self@.required.contains(path@),
    {
        let mut i: usize = 0;
        while i < self.required.len()
            invariant
                i <= self.required.len(),
                forall|j: int| 0 <= j < i ==> self@.required[j] != path@,
            decreases self.required.len() - i,
        {
            if same_bytes(self.required[i].as_slice(), path) {
                assert(self@.required[i as int] == path@);
                return true;
            }
            i += 1;
        }
        false
    }

    /// Remember that the source at `path` was required.
    pub fn mark_required(&mut self, path: &[u8])
        ensures
            final(self)@.sources == old(self)@.sources,
            final(self)@.required == marked(old(self)@.required, path@),
            old(self)@.required.no_duplicates() ==> final(self)@.required.no_duplicates(),
    {
        if !self.is_required(path) {
            self.required.push(slice_to_vec(path));
            assert(self@.required =~= old(self)@.required.push(path@));
        }
        assert(self@.sources =~= old(self)@.sources);
        assert(self@.required =~= marked(old(self)@.required, path@));
    }

    /// The path of the source that `name` stands for.
    pub fn resolve(&self, kind: Loading, base: &[u8], name: &[u8]) -> (r: Option<Vec<u8>>)
        ensures
            match r {
                Some(path) => resolved(self@.sources, kind, base@, name@) == Some(path@),
                None => resolved(self@.sources, kind, base@, name@) is None,
            },
    {
        let mut path: Vec<u8> = locate(base, name);
        if self.is_file(path.as_slice()) {
            return Some(path);
        }
        match kind {
            Loading::Require => {
                push_all(&mut path, bytes_of(".rb").as_slice());
                if self.is_file(path.as_slice()) {
                    Some(path)
                } else {
                    None
                }
            },
            Loading::Load => None,
        }
    }
}

/// Why a source was not loaded.
#[derive(Debug, PartialEq, Eq)]
pub enum LoaderError {
    /// No source is defined for the name, or its native initializer failed.
    CannotLoad(Vec<u8>),
    /// A source was found and the loader could not go on.
    Fatal(Loading),
    /// The name is no `String`.
    NoImplicitConversionToString,
    /// The script of the source raised.
    Script(ArtichokeError),
}

impl LoaderError {
    /// The class of the exception that reports this error to the VM.
    pub open spec fn spec_name(self) -> Seq<u8> {
        match self {
            LoaderError::CannotLoad(_) => text("LoadError"),
            LoaderError::Fatal(_) => text("RuntimeError"),
            LoaderError::NoImplicitConversionToString => text("ArgumentError"),
            LoaderError::Script(e) => e.spec_name(),
        }
    }

    /// The message of the exception that reports this error to the VM.
    pub open spec fn spec_message(self) -> Seq<u8> {
        match self {
            LoaderError::CannotLoad(name) => text("cannot load such file -- ") + name@,
            LoaderError::Fatal(Loading::Require) => text("fatal Kernel#require error"),
            LoaderError::Fatal(Loading::Load) => text("fatal Kernel#load error"),
            LoaderError::NoImplicitConversionToString => text("No implicit conversion to String"),
            LoaderError::Script(e) => e.spec_message(),
        }
    }

    pub fn name(&self) -> (name: Vec<u8>)
        ensures
            name@ == self.spec_name(),
    {
        match self {
            LoaderError::CannotLoad(_) => bytes_of("LoadError"),
            LoaderError::Fatal(_) => bytes_of("RuntimeError"),
            LoaderError::NoImplicitConversionToString => bytes_of("ArgumentError"),
            LoaderError::Script(e) => e.name(),
        }
    }

    pub fn message(&self) -> (message: Vec<u8>)
        ensures
            message@ == self.spec_message(),
    {
        match self {
            LoaderError::CannotLoad(name) => {
                let mut message: Vec<u8> = bytes_of("cannot load such file -- ");
                push_all(&mut message, name.as_slice());
                message
            },
            LoaderError::Fatal(Loading::Require) => bytes_of("fatal Kernel#require error"),
            LoaderError::Fatal(Loading::Load) => bytes_of("fatal Kernel#load error"),
            LoaderError::NoImplicitConversionToString => bytes_of("No implicit conversion to String"),
            LoaderError::Script(e) => e.message(),
        }
    }
}

/// Where a load stands.
#[derive(Debug, PartialEq, Eq)]
pub enum LoadStage {
    /// Asked for the bytes of the name; holds the base to search below.
    Naming(Vec<u8>),
    /// Asked for the native initializer; holds the source's path and script.
    Native(Vec<u8>, Option<Vec<u8>>),
    /// Asked for the evaluation of the script, in an eval context of the
    /// source's path; holds that path.
    Script(Vec<u8>),
}

/// A `require` or `load` in progress.
#[derive(Debug, PartialEq, Eq)]
pub struct Load {
    kind: Loading,
    stage: LoadStage,
}

pub type Loaded = Task<Load, Result<bool, LoaderError>>;

/// Whether `next` ends the load of the source at `file`: the load succeeded,
/// and `require` remembers the source.
pub open spec fn finished(
    kind: Loading,
    file: Seq<u8>,
    before: ArtichokeView,
    next: Loaded,
    after: ArtichokeView,
) -> bool {
    &&& next == Loaded::Done(Ok(true))
    &&& after == match kind {
        Loading::Require => ArtichokeView { required: marked(before.required, file), ..before },
        Loading::Load => before,
    }
}

/// Whether `next` goes on to the script of the source at `file`: a script is
/// evaluated in an eval context of the source's path; without one the load
/// ends.
pub open spec fn scripted(
    kind: Loading,
    file: Vec<u8>,
    script: Option<Vec<u8>>,
    before: ArtichokeView,
    next: Loaded,
    after: ArtichokeView,
) -> bool {
    match script {
        Some(code) => {
            &&& next matches Task::Ask(task, query)
            &&& query == Query::Eval(code)
            &&& task.kind() == kind
            &&& task.stage() == LoadStage::Script(file)
            &&& after == ArtichokeView { contexts: before.contexts.push(file@), ..before }
        },
        None => finished(kind, file@, before, next, after),
    }
}

/// Whether `next` begins the load of `name`, searched below `base`.
///
/// A name that stands for no source cannot be loaded. `require` of a source
/// that was required gives `false` and does nothing. Else the native
/// initializer is asked for where there is one, and the script comes next.
pub open spec fn begun(
    kind: Loading,
    base: Seq<u8>,
    name: Seq<u8>,
    before: ArtichokeView,
    next: Loaded,
    after: ArtichokeView,
) -> bool {
    match resolved(before.sources, kind, base, name) {
        None => {
            &&& after == before
            &&& next matches Task::Done(Err(LoaderError::CannotLoad(given)))
            &&& given@ == name
        },
        Some(path) => if kind == Loading::Require && before.required.contains(path) {
            after == before && next == Loaded::Done(Ok(false))
        } else {
            match native_of(before.sources, path) {
                Some(native) => {
                    &&& after == before
                    &&& next matches Task::Ask(task, query)
                    &&& query == Query::Native(native)
                    &&& task.kind() == kind
                    &&& task.stage() matches LoadStage::Native(file, script)
                    &&& file@ == path
                    &&& match script {
                        Some(code) => script_of(before.sources, path) == Some(code@),
                        None => script_of(before.sources, path) is None,
                    }
                },
                None => exists|file: Vec<u8>, script: Option<Vec<u8>>|
                    {
                        &&& file@ == path
                        &&& script matches Some(code)
                        &&& script_of(before.sources, path) == Some(code@)
                        &&& #[trigger] scripted(kind, file, script, before, next, after)
                    },
            }
        },
    }
}

impl Load {
    pub closed spec fn kind(&self) -> Loading {
        self.kind
    }

    pub closed spec fn stage(&self) -> LoadStage {
        self.stage
    }

    /// Whether `next` follows on `answer`.
    ///
    /// After the native initializer the script comes next; a native
    /// initializer that failed means that the source cannot be loaded. After
    /// the script its eval context is popped, whatever the script gave, and
    /// the load ends: with what the script raised, or with success.
    pub open spec fn follows(
        self,
        answer: Answer,
        before: ArtichokeView,
        next: Loaded,
        after: ArtichokeView,
    ) -> bool {
        match self.stage() {
            LoadStage::Naming(base) => match answer {
                Answer::Bytes(Some(name)) => begun(self.kind(), base@, name@, before, next, after),
                _ => after == before && next == Loaded::Done(
                    Err(LoaderError::NoImplicitConversionToString),
                ),
            },
            LoadStage::Native(file, script) => match answer {
                Answer::Initialized(true) => scripted(self.kind(), file, script, before, next, after),
                _ => after == before && next == Loaded::Done(Err(LoaderError::CannotLoad(file))),
            },
            LoadStage::Script(file) => {
                let popped = ArtichokeView {
                    contexts: if before.contexts.len() > 0 {
                        before.contexts.drop_last()
                    } else {
                        before.contexts
                    },
                    ..before
                };
                match answer {
                    Answer::Returned(Ok(_)) => finished(self.kind(), file@, popped, next, after),
                    Answer::Returned(Err(e)) => after == popped && next == Loaded::Done(
                        Err(LoaderError::Script(e)),
                    ),
                    _ => after == popped && next == Loaded::Done(
                        Err(LoaderError::Fatal(self.kind())),
                    ),
                }
            },
        }
    }

    fn finish(interp: &mut Artichoke, kind: Loading, file: Vec<u8>) -> (next: Loaded)
        ensures
            finished(kind, file@, old(interp)@, next, final(interp)@),
    {
        match kind {
            Loading::Require => {
                interp.loader.mark_required(file.as_slice());
            },
            Loading::Load => {},
        }
        Task::Done(Ok(true))
    }

    fn run_script(
        interp: &mut Artichoke,
        kind: Loading,
        file: Vec<u8>,
        script: Option<Vec<u8>>,
    ) -> (next: Loaded)
        ensures
            scripted(kind, file, script, old(interp)@, next, final(interp)@),
    {
        match script {
            Some(code) => {
                interp.push_context(Context::new(copy_bytes(&file)));
                Task::Ask(Load { kind, stage: LoadStage::Script(file) }, Query::Eval(code))
            },
            None => Self::finish(interp, kind, file),
        }
    }

    /// Begin the load of `name`, searched below `base`.
    pub fn start(interp: &mut Artichoke, kind: Loading, base: &[u8], name: &[u8]) -> (next: Loaded)
        ensures
            begun(kind, base@, name@, old(interp)@, next, final(interp)@),
    {
        match interp.loader.resolve(kind, base, name) {
            None => Task::Done(Err(LoaderError::CannotLoad(slice_to_vec(name)))),
            Some(file) => {
                let required: bool = match kind {
                    Loading::Require => interp.loader.is_required(file.as_slice()),
                    Loading::Load => false,
                };
                if required {
                    return Task::Done(Ok(false));
                }
                let script = interp.loader.script(file.as_slice());
                match interp.loader.native(file.as_slice()) {
                    Some(native) => Task::Ask(
                        Load { kind, stage: LoadStage::Native(file, script) },
                        Query::Native(native),
                    ),
                    None => {
                        let next = Self::run_script(interp, kind, file, script);
                        assert(scripted(kind, file, script, old(interp)@, next, interp@));
                        next
                    },
                }
            },
        }
    }

    /// Begin the load of the source that `name` names, searched below `base`.
    /// A name that is no `String` is refused; the bytes of a `String` are read
    /// first.
    pub fn start_value(kind: Loading, base: Vec<u8>, name: Value) -> (next: Loaded)
        ensures
            if name@.tag == Ruby::String {
                &&& next matches Task::Ask(task, query)
                &&& query == Query::ReadString(name)
                &&& task.kind() == kind
                &&& task.stage() == LoadStage::Naming(base)
            } else {
                next == Loaded::Done(Err(LoaderError::NoImplicitConversionToString))
            },
    {
        match name.ruby_type() {
            Ruby::String => Task::Ask(
                Load { kind, stage: LoadStage::Naming(base) },
                Query::ReadString(name),
            ),
            _ => Task::Done(Err(LoaderError::NoImplicitConversionToString)),
        }
    }

    pub fn resume(self, interp: &mut Artichoke, answer: Answer) -> (next: Loaded)
        ensures
            self.follows(answer, old(interp)@, next, final(interp)@),
    {
        let kind = self.kind;
        match self.stage {
            LoadStage::Naming(base) => match answer {
                Answer::Bytes(Some(name)) => Self::start(
                    interp,
                    kind,
                    base.as_slice(),
                    name.as_slice(),
                ),
                _ => Task::Done(Err(LoaderError::NoImplicitConversionToString)),
            },
            LoadStage::Native(file, script) => match answer {
                Answer::Initialized(true) => Self::run_script(interp, kind, file, script),
                _ => Task::Done(Err(LoaderError::CannotLoad(file))),
            },
            LoadStage::Script(file) => {
                let _ = interp.pop_context();
                match answer {
                    Answer::Returned(Ok(_)) => Self::finish(interp, kind, file),
                    Answer::Returned(Err(e)) => Task::Done(Err(LoaderError::Script(e))),
                    _ => Task::Done(Err(LoaderError::Fatal(kind))),
                }
            },
        }
    }
}

/// The eval context of a script is popped when the script ends, whatever it
/// gave: if the contexts are those that the load found, with the script's
/// own on top, then they are those that the load found again when the load
/// ends, and nothing else has changed but, for a `require` that succeeded,
/// the sources that were required.
pub proof fn lemma_script_context_is_popped(
    load: Load,
    answer: Answer,
    found: ArtichokeView,
    before: ArtichokeView,
    next: Loaded,
    after: ArtichokeView,
)
    requires
        load.stage() matches LoadStage::Script(file) && before == (ArtichokeView {
            contexts: found.contexts.push(file@),
            ..found
        }),
        load.follows(answer, before, next, after),
    ensures
        next is Done,
        after.contexts == found.contexts,
        after == (ArtichokeView { required: after.required, ..found }),
        !(next matches Task::Done(Ok(_))) ==> after == found,
{
    let file = load.stage()->Script_0;
    assert(found.contexts.push(file@).drop_last() =~= found.contexts);
}

/// A source that `require` has loaded is not loaded by `require` again: once
/// a `require` of the source has ended in success, a `require` of a name that
/// stands for it gives `false` and changes nothing, as long as no source is
/// defined in between.
pub proof fn lemma_require_is_idempotent(
    before: ArtichokeView,
    first: Loaded,
    between: ArtichokeView,
    base: Seq<u8>,
    name: Seq<u8>,
    again: Loaded,
    after: ArtichokeView,
)
    requires
        resolved(before.sources, Loading::Require, base, name) is Some,
        finished(
            Loading::Require,
            resolved(before.sources, Loading::Require, base, name)->0,
            before,
            first,
            between,
        ),
        begun(Loading::Require, base, name, between, again, after),
    ensures
        first == Loaded::Done(Ok(true)),
        again == Loaded::Done(Ok(false)),
        after == between,
{
    let path = resolved(before.sources, Loading::Require, base, name)->0;
    assert(marked(before.required, path).contains(path)) by {
        if !before.required.contains(path) {
            assert(before.required.push(path).last() == path);
        }
    }
}

/// `load` runs a source whatever was required: a `load` of a name that stands
/// for a source asks for the source to be run, what it asks does not depend
/// on the sources that were required, and it leaves them as they were.
pub proof fn lemma_load_always_executes(
    before: ArtichokeView,
    required: Seq<Seq<u8>>,
    base: Seq<u8>,
    name: Seq<u8>,
    next: Loaded,
    after: ArtichokeView,
)
    requires
        begun(Loading::Load, base, name, before, next, after),
    ensures
        begun(
            Loading::Load,
            base,
            name,
            ArtichokeView { required, ..before },
            next,
            ArtichokeView { required, ..after },
        ),
        after.required == before.required,
        resolved(before.sources, Loading::Load, base, name) is Some ==> next is Ask,
{
    let path = resolved(before.sources, Loading::Load, base, name);
    if path is Some {
        if native_of(before.sources, path->0) is None {
            let (file, script) = choose|file: Vec<u8>, script: Option<Vec<u8>>|
                {
                    &&& file@ == path->0
                    &&& script matches Some(code)
                    &&& script_of(before.sources, path->0) == Some(code@)
                    &&& #[trigger] scripted(Loading::Load, file, script, before, next, after)
                };
            assert(scripted(
                Loading::Load,
                file,
                script,
                ArtichokeView { required, ..before },
                next,
                ArtichokeView { required, ..after },
            ));
        }
    }
}

impl Artichoke {
    /// Define the source at `path` as a script. A relative path lies below
    /// [`load_path`].
    pub fn def_rb_source_file(&mut self, path: &[u8], contents: &[u8])
        ensures
            final(self)@ == (ArtichokeView {
                sources: old(self)@.sources.push(
                    SourceView {
                        path: located(load_path(), path@),
                        provider: ProviderView::Script(contents@),
                    },
                ),
                ..old(self)@
            }),
    {
        self.loader.def_rb_source_file(path, contents);
    }

    /// Define the source at `path` as a native initializer. A relative path
    /// lies below [`load_path`].
    pub fn def_file(&mut self, path: &[u8], native: Native)
        ensures
            final(self)@ == (ArtichokeView {
                sources: old(self)@.sources.push(
                    SourceView {
                        path: located(load_path(), path@),
                        provider: ProviderView::Native(native),
                    },
                ),
                ..old(self)@
            }),
    {
        self.loader.def_file(path, native);
    }
}

} // verus!
