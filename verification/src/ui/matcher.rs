//! The match engine the selector filters its items with.
//!
//! The engine is `nucleo`'s. It ranks in the background and shows its last
//! finished ranking as a snapshot; every contract here is trusted, not proved.

use nucleo::pattern::{CaseMatching, Normalization};
use nucleo::{Injector, Nucleo};
use std::sync::Arc;
use vstd::prelude::*;

verus! {

/// `nucleo::Nucleo`: the match engine with its worker threads. Nothing of
/// its inside is known here but what the names below stand for.
#[verifier::external_type_specification]
#[verifier::external_body]
#[verifier::reject_recursive_types(T)]
pub struct ExNucleo<T: Sync + Send + 'static>(Nucleo<T>);

/// `nucleo::Injector`: a handle that adds items to a match engine, from any
/// thread.
#[verifier::external_type_specification]
#[verifier::external_body]
#[verifier::reject_recursive_types(T)]
pub struct ExInjector<T>(Injector<T>);

/// The items of the engine's snapshot that match its pattern, best first.
pub uninterp spec fn matched_items(engine: Nucleo<String>) -> Seq<Seq<char>>;

/// The text the engine's pattern was last parsed from.
pub uninterp spec fn pattern_text(engine: Nucleo<String>) -> Seq<char>;

/// How many items the engine's snapshot holds, matching or not.
pub uninterp spec fn item_total(engine: Nucleo<String>) -> nat;

/// Whether the engine was told, when its pattern was last parsed, that the
/// text before is a prefix of the new one, so that it may narrow its last
/// result in place of ranking every item anew. False where the pattern was
/// never parsed. This records what the engine was last told, not what it
/// does: the engine keeps no such flag. It ranks anew all the same where an
/// earlier edit still waits for a ranking anew, or where the text before
/// ended in a negated part; and a poll forgets what it was told.
pub uninterp spec fn narrowing_asked(engine: Nucleo<String>) -> bool;

/// Whether the engine's pattern was parsed since the engine was last polled:
/// an edit waits to be taken up.
pub uninterp spec fn edit_pending(engine: Nucleo<String>) -> bool;

/// The longest that one poll of the engine may wait for its workers, in
/// milliseconds.
pub const MAX_TICK_MS: u64 = 10;

/// Called by the engine when a new ranking is ready. The selector polls, so
/// nothing is done.
pub fn request_redraw() {
}

/// `Nucleo::new`: an engine with one column to match on, and as many worker
/// threads as the machine has. Its snapshot holds no item and no match, and
/// its pattern is empty.
#[verifier::external_body]
pub(crate) fn new_engine() -> (engine: Nucleo<String>)
    ensures
        matched_items(engine) == Seq::<Seq<char>>::empty(),
        pattern_text(engine) == Seq::<char>::empty(),
        item_total(engine) == 0,
        !narrowing_asked(engine),
        !edit_pending(engine),
{
    Nucleo::new(nucleo::Config::DEFAULT, Arc::new(request_redraw), None, 1)
}

/// `Nucleo::injector`: a handle that adds items to the engine.
#[verifier::external_body]
pub(crate) fn engine_injector(engine: &Nucleo<String>) -> (injector: Injector<String>) {
    engine.injector()
}

/// `Injector::push`: hands `item` to the engine, matched by its own text.
/// It shows in a snapshot only after a later `tick`.
#[verifier::external_body]
pub(crate) fn inject(injector: &Injector<String>, item: String) {
    injector.push(item, |text, columns| columns[0] = text.as_str().into());
}

/// `Nucleo::tick`: waits up to `timeout` milliseconds for the workers and
/// takes their ranking as the new snapshot. An edit of the pattern that
/// waited is handed to the workers, so none waits afterwards. The pattern
/// stays; which items the snapshot then holds, and how many, depends on the
/// workers. The wait is bounded here, so that no poll holds its caller up
/// for longer than `MAX_TICK_MS`.
#[verifier::external_body]
pub(crate) fn tick(engine: &mut Nucleo<String>, timeout: u64)
    requires
        timeout <= MAX_TICK_MS,
    ensures
        pattern_text(*final(engine)) == pattern_text(*old(engine)),
        narrowing_asked(*final(engine)) == narrowing_asked(*old(engine)),
        !edit_pending(*final(engine)),
{
    engine.tick(timeout);
}

/// `Snapshot::matched_item_count`: how many items of the snapshot match.
#[verifier::external_body]
pub(crate) fn matched_item_count(engine: &Nucleo<String>) -> (count: u32)
    ensures
        count == matched_items(*engine).len(),
{
    engine.snapshot().matched_item_count()
}

/// `Snapshot::item_count`: how many items the snapshot holds in all.
#[verifier::external_body]
pub(crate) fn item_count(engine: &Nucleo<String>) -> (count: u32)
    ensures
        count == item_total(*engine),
{
    engine.snapshot().item_count()
}

/// `Snapshot::get_matched_item`: the text of the match at rank `n`, or
/// `None` when the snapshot has no such rank.
#[verifier::external_body]
pub(crate) fn matched_item(engine: &Nucleo<String>, n: u32) -> (item: Option<String>)
    ensures
        item is Some == (n < matched_items(*engine).len()),
        item matches Some(text) ==> text@ == matched_items(*engine)[n as int],
{
    engine.snapshot().get_matched_item(n).map(|item| item.data.to_owned())
}

/// `MultiPattern::reparse` on the engine's only column, with smart case
/// matching and normalization. With `append` the caller promises that the
/// previous text is a prefix of `text`, and so gives the engine leave to
/// narrow its last result. The snapshot changes only at the next `tick`.
#[verifier::external_body]
pub(crate) fn reparse(engine: &mut Nucleo<String>, text: &str, append: bool)
    requires
        append ==> pattern_text(*old(engine)).is_prefix_of(text@),
    ensures
        pattern_text(*final(engine)) == text@,
        matched_items(*final(engine)) == matched_items(*old(engine)),
        item_total(*final(engine)) == item_total(*old(engine)),
        narrowing_asked(*final(engine)) == append,
        edit_pending(*final(engine)),
{
    engine.pattern.reparse(0, text, CaseMatching::Smart, Normalization::Smart, append);
}

} // verus!
