//! The decisions of the Latin (Collatinus) dictionary lookup: what is
//! answered while the engine loads, which words can be handed to it, and
//! how its reply becomes dictionary entries.
use vstd::prelude::*;

verus! {

/// The definition shown while the Latin dictionary is still loading.
pub const LOADING_HTML: &'static str = "<p class=\"info\">Latin dictionary is loading\u{2026}</p>";

/// The definition shown once loading the Latin dictionary is over and it
/// could not be made ready.
pub const UNAVAILABLE_HTML: &'static str = "<p>Latin dictionary unavailable.</p>";

/// Where loading the Latin dictionary stands.
#[derive(Clone, Copy, Debug, PartialEq, Eq, Structural)]
pub enum LoadState {
    /// Loading has not finished yet.
    Loading,
    /// The engine is ready for lookups.
    Ready,
    /// Loading is over and the engine was not made ready.
    Failed,
}

/// The load state told by the two flags of the loader: whether the engine
/// was made `ready`, and whether loading is `finished` (the loader ran to its
/// end, whatever came of it).
pub fn load_state(ready: bool, finished: bool) -> (state: LoadState)
    ensures
        ready ==> state == LoadState::Ready,
        !ready && finished ==> state == LoadState::Failed,
        !ready && !finished ==> state == LoadState::Loading,
{
    if ready {
        LoadState::Ready
    } else if finished {
        LoadState::Failed
    } else {
        LoadState::Loading
    }
}

/// The notice shown instead of a definition when the engine is not ready:
/// `LOADING_HTML` while loading, `UNAVAILABLE_HTML` once loading failed.
pub open spec fn notice(state: LoadState) -> Seq<char> {
    if state == LoadState::Failed {
        UNAVAILABLE_HTML@
    } else {
        LOADING_HTML@
    }
}

/// The HTML a definition panel shows: the answer of `query` once the engine
/// is ready (and `query` is only called then), otherwise the notice of the
/// load state.
pub fn panel_content<G: Fn() -> String>(state: LoadState, query: G) -> (html: String)
    requires
        state == LoadState::Ready ==> call_requires(query, ()),
    ensures
        state == LoadState::Ready ==> call_ensures(query, (), html),
        state != LoadState::Ready ==> html@ == notice(state),
{
    match state {
        LoadState::Ready => query(),
        LoadState::Loading => LOADING_HTML.to_owned(),
        LoadState::Failed => UNAVAILABLE_HTML.to_owned(),
    }
}

/// A dictionary entry: the headword and its definition (HTML).
pub type Entry = [String; 2];

/// The headword and the definition of an entry.
pub open spec fn entry_view(e: Entry) -> (Seq<char>, Seq<char>) {
    (e@[0]@, e@[1]@)
}

/// The first step of a lookup.
pub enum LookupStep {
    /// The entries are known without asking the engine.
    Answer(Vec<Entry>),
    /// The engine is to be asked for the word (see `lookup_answer`).
    Query,
}

/// Whether `text` holds a NUL character, which a C string cannot carry (in
/// UTF-8 a zero byte only ever encodes that character).
pub fn has_interior_nul(text: &str) -> (b: bool)
    ensures
        b == text@.contains('\0'),
{
    let n = text.unicode_len();
    let mut i: usize = 0;
    while i < n
        invariant
            n == text@.len(),
            i <= n,
            forall|k: int| 0 <= k < i ==> text@[k] != '\0',
        decreases n - i,
    {
        if text.get_char(i) == '\0' {
            assert(text@[i as int] == '\0');
            return true;
        }
        i = i + 1;
    }
    false
}

/// Decides how a lookup of `word` begins. While the engine is not ready the
/// answer is a single entry with an empty headword and the notice of the load
/// state (`LOADING_HTML` while loading, `UNAVAILABLE_HTML` once loading
/// failed) as its definition; a word that a C string cannot carry has no
/// entries; any other word is to be asked of the engine.
pub fn lookup_step(state: LoadState, word: &str) -> (step: LookupStep)
    ensures
        state == LoadState::Loading ==> (step matches LookupStep::Answer(v) && v@.len() == 1
            && entry_view(v@[0]) == (Seq::<char>::empty(), LOADING_HTML@)),
        state == LoadState::Failed ==> (step matches LookupStep::Answer(v) && v@.len() == 1
            && entry_view(v@[0]) == (Seq::<char>::empty(), UNAVAILABLE_HTML@)),
        state == LoadState::Ready && word@.contains('\0') ==> (step matches LookupStep::Answer(v)
            && v@.len() == 0),
        state == LoadState::Ready && !word@.contains('\0') ==> step is Query,
{
    match state {
        LoadState::Ready => {},
        _ => {
            let text = match state {
                LoadState::Failed => UNAVAILABLE_HTML.to_owned(),
                _ => LOADING_HTML.to_owned(),
            };
            let entry: Entry = [String::new(), text];
            let mut v: Vec<Entry> = Vec::new();
            v.push(entry);
            return LookupStep::Answer(v);
        },
    }
    if has_interior_nul(word) {
        return LookupStep::Answer(Vec::new());
    }
    LookupStep::Query
}

/// The entries for `word` given the engine's reply: none when it found
/// nothing, otherwise a single entry with `word` as headword and the reply
/// as definition.
pub fn lookup_answer(word: &str, reply: Option<String>) -> (entries: Vec<Entry>)
    ensures
        reply.is_none() ==> entries@.len() == 0,
        reply matches Some(html) ==> entries@.len() == 1 && entry_view(entries@[0]) == (
            word@,
            html@,
        ),
{
    match reply {
        None => Vec::new(),
        Some(html) => {
            let entry: Entry = [word.to_owned(), html];
            let mut v: Vec<Entry> = Vec::new();
            v.push(entry);
            v
        },
    }
}

} // verus!
