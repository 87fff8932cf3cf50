//! Copying: one text, written to every store a destination selects.

use crate::selection::{Clipboard, ClipboardCopyDestination};
use crate::termwindow::TermWindow;
use vstd::prelude::*;

verus! {

/// One write of a text to one store.
#[derive(Clone, Debug, PartialEq, Eq)]
pub struct ClipboardWrite {
    pub clipboard: Clipboard,
    pub text: String,
}

pub ghost struct ClipboardWriteView {
    pub clipboard: Clipboard,
    pub text: Seq<char>,
}

impl View for ClipboardWrite {
    type V = ClipboardWriteView;

    open spec fn view(&self) -> ClipboardWriteView {
        ClipboardWriteView { clipboard: self.clipboard, text: self.text@ }
    }
}

/// The writes a copy of `text` to `destination` consists of, in order.
pub open spec fn copy_writes(destination: ClipboardCopyDestination, text: Seq<char>) -> Seq<
    ClipboardWriteView,
> {
    destination.stores().map_values(|clipboard: Clipboard| ClipboardWriteView { clipboard, text })
}

impl TermWindow {
    /// Copies `text` to `clipboard`.
    ///
    /// Returns the writes to make, one for each store the destination
    /// selects, each with its own copy of the text. The writes are
    /// independent of each other: the one who makes them makes every one,
    /// whatever becomes of the others, and reports nothing back.
    pub fn copy_to_clipboard(&self, clipboard: ClipboardCopyDestination, text: String) -> (writes:
        Vec<ClipboardWrite>)
        ensures
            writes@.map_values(|write: ClipboardWrite| write@) == copy_writes(clipboard, text@),
            writes@.len() == clipboard.stores().len(),
            forall|i: int|
                0 <= i < writes@.len() ==> {
                    &&& (#[trigger] writes@[i]).clipboard == clipboard.stores()[i]
                    &&& writes@[i].text@ == text@
                },
    {
        let stores = clipboard.targets();
        let mut writes: Vec<ClipboardWrite> = Vec::new();
        let mut i: usize = 0;
        while i < stores.len()
            invariant
                i <= stores.len(),
                stores@ == clipboard.stores(),
                writes@.len() == i,
                forall|k: int|
                    0 <= k < i ==> (#[trigger] writes@[k])@ == (ClipboardWriteView {
                        clipboard: stores@[k],
                        text: text@,
                    }),
            decreases stores.len() - i,
        {
            writes.push(ClipboardWrite { clipboard: stores[i], text: text.clone() });
            i += 1;
        }
        writes
    }
}

/// A copy writes the text it was given, unchanged, once to each store the
/// destination selects and to no other store.
pub proof fn lemma_copy_reaches_selected_stores_once(
    destination: ClipboardCopyDestination,
    text: Seq<char>,
)
    ensures
        forall|i: int|
            0 <= i < copy_writes(destination, text).len() ==> {
                &&& (#[trigger] copy_writes(destination, text)[i]).text == text
                &&& destination.selects(copy_writes(destination, text)[i].clipboard)
            },
        forall|store: Clipboard|
            destination.selects(store) ==> exists|i: int|
                0 <= i < copy_writes(destination, text).len() && (#[trigger] copy_writes(
                    destination,
                    text,
                )[i]).clipboard == store,
        forall|i: int, j: int|
            0 <= i < j < copy_writes(destination, text).len() ==> (#[trigger] copy_writes(
                destination,
                text,
            )[i]).clipboard != (#[trigger] copy_writes(destination, text)[j]).clipboard,
{
    let writes = copy_writes(destination, text);
    destination.lemma_stores_well_formed();
    assert forall|store: Clipboard| destination.selects(store) implies exists|i: int|
        0 <= i < writes.len() && (#[trigger] writes[i]).clipboard == store by {
        let i = destination.stores().index_of(store);
        assert(writes[i].clipboard == store);
    }
}

} // verus!
