//! Clipboard-like stores and the logical requests that select them.

use vstd::prelude::*;

verus! {

/// One of the host's clipboard-like stores.
#[derive(Clone, Copy, Debug, PartialEq, Eq, Hash, Structural)]
pub enum Clipboard {
    Clipboard,
    PrimarySelection,
}

/// Where a copy is sent.
#[derive(Clone, Copy, Debug, PartialEq, Eq, Hash, Structural)]
pub enum ClipboardCopyDestination {
    Clipboard,
    PrimarySelection,
    ClipboardAndPrimarySelection,
}

/// Where a paste is read from.
#[derive(Clone, Copy, Debug, PartialEq, Eq, Hash, Structural)]
pub enum ClipboardPasteSource {
    Clipboard,
    PrimarySelection,
}

impl ClipboardCopyDestination {
    /// The stores this destination stands for, in the order they are written.
    pub open spec fn stores(self) -> Seq<Clipboard> {
        match self {
            ClipboardCopyDestination::Clipboard => seq![Clipboard::Clipboard],
            ClipboardCopyDestination::PrimarySelection => seq![Clipboard::PrimarySelection],
            ClipboardCopyDestination::ClipboardAndPrimarySelection => seq![
                Clipboard::Clipboard,
                Clipboard::PrimarySelection,
            ],
        }
    }

    /// Whether `store` is one of the stores this destination stands for.
    pub open spec fn selects(self, store: Clipboard) -> bool {
        match self {
            ClipboardCopyDestination::Clipboard => store == Clipboard::Clipboard,
            ClipboardCopyDestination::PrimarySelection => store == Clipboard::PrimarySelection,
            ClipboardCopyDestination::ClipboardAndPrimarySelection => true,
        }
    }

    /// A destination never expands to nothing, never names a store twice,
    /// and names exactly the stores it selects.
    pub proof fn lemma_stores_well_formed(self)
        ensures
            1 <= self.stores().len() <= 2,
            self.stores().no_duplicates(),
            forall|store: Clipboard| self.stores().contains(store) <==> self.selects(store),
    {
        let stores = self.stores();
        assert forall|store: Clipboard| stores.contains(store) <==> self.selects(store) by {
            if self.selects(store) {
                if stores[0] != store {
                    assert(stores[1] == store);
                }
            }
        }
    }

    /// Expands the destination into the stores to write, in writing order.
    pub fn targets(self) -> (out: Vec<Clipboard>)
        ensures
            out@ == self.stores(),
    {
        let mut out: Vec<Clipboard> = Vec::new();
        match self {
            ClipboardCopyDestination::Clipboard => {
                out.push(Clipboard::Clipboard);
            },
            ClipboardCopyDestination::PrimarySelection => {
                out.push(Clipboard::PrimarySelection);
            },
            ClipboardCopyDestination::ClipboardAndPrimarySelection => {
                out.push(Clipboard::Clipboard);
                out.push(Clipboard::PrimarySelection);
            },
        }
        out
    }
}

impl ClipboardPasteSource {
    /// The one store a paste from this source reads.
    pub open spec fn spec_store(self) -> Clipboard {
        match self {
            ClipboardPasteSource::Clipboard => Clipboard::Clipboard,
            ClipboardPasteSource::PrimarySelection => Clipboard::PrimarySelection,
        }
    }

    /// Maps the source to the store to read.
    #[verifier::when_used_as_spec(spec_store)]
    pub fn store(self) -> (kind: Clipboard)
        ensures
            kind == self.spec_store(),
    {
        match self {
            ClipboardPasteSource::Clipboard => Clipboard::Clipboard,
            ClipboardPasteSource::PrimarySelection => Clipboard::PrimarySelection,
        }
    }
}

} // verus!
