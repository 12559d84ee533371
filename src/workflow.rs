use vstd::prelude::*;

use crate::aliases::{label_of, KeyAliasRegistry, SignerLabel};
use crate::catalog::{
    catalog_of, coins_total, threshold_ok, RecoveryPathCatalog, RecoveryPathView, WalletSnapshot,
};
use crate::types::{Network, Origin};
use crate::validate::{address_ok, feerate_ok, trimmed, ValidatedField};

verus! {

/// Holds at most one selected recovery path, by its index in the catalog.
pub struct RecoveryPathSelector {
    selected: Option<usize>,
}

impl View for RecoveryPathSelector {
    type V = Option<usize>;

    closed spec fn view(&self) -> Option<usize> {
        self.selected
    }
}

/// The selection after asking for `index` in a catalog of `len` paths: the
/// index if it exists, else the selection is kept.
pub open spec fn selection_after_select(current: Option<usize>, index: usize, len: nat) -> Option<
    usize,
> {
    if index < len {
        Some(index)
    } else {
        current
    }
}

/// The selection once the catalog has `len` paths: kept if it still names a
/// path, else cleared.
pub open spec fn selection_after_recompute(current: Option<usize>, len: nat) -> Option<usize> {
    match current {
        Some(i) => if i < len {
            Some(i)
        } else {
            None
        },
        None => None,
    }
}

impl RecoveryPathSelector {
    pub fn new() -> (r: Self)
        ensures
            r@ == None::<usize>,
    {
        RecoveryPathSelector { selected: None }
    }

    /// The selected index, if any.
    pub fn selected(&self) -> (r: Option<usize>)
        ensures
            r == self@,
    {
        self.selected
    }

    /// Selects `index` if the catalog, of `catalog_len` paths, has it; an
    /// index out of range is ignored and selecting the selected path changes
    /// nothing.
    pub fn select(&mut self, index: usize, catalog_len: usize)
        ensures
            final(self)@ == selection_after_select(old(self)@, index, catalog_len as nat),
    {
        if index < catalog_len {
            self.selected = Some(index);
        }
    }

    /// Clears the selection.
    pub fn reset(&mut self)
        ensures
            final(self)@ == None::<usize>,
    {
        self.selected = None;
    }

    /// Clears the selection if it names no path of a catalog of
    /// `catalog_len` paths.
    pub fn revalidate(&mut self, catalog_len: usize)
        ensures
            final(self)@ == selection_after_recompute(old(self)@, catalog_len as nat),
    {
        match self.selected {
            Some(i) => {
                if i >= catalog_len {
                    self.reset();
                }
            },
            None => {},
        }
    }
}

/// Whether the workflow may move on to drafting the transaction.
pub open spec fn proceed_allowed(
    address_valid: bool,
    address: Seq<char>,
    feerate_valid: bool,
    feerate: Seq<char>,
    selected: Option<usize>,
) -> bool {
    &&& address_valid
    &&& address.len() > 0
    &&& feerate_valid
    &&& feerate.len() > 0
    &&& selected is Some
}

/// What the recovery screen shows around the list of paths.
#[derive(Clone, Copy, PartialEq, Eq, Structural, Debug)]
pub struct RecoveryScreen {
    /// Whether at least one path is listed; if not, the screen says that no
    /// recovery path is available and offers no way forward.
    pub paths_available: bool,
    /// Number of listed paths.
    pub path_count: usize,
    /// Whether the way forward is offered and enabled.
    pub next_enabled: bool,
}

/// Decides the recovery screen from the number of listed paths, the selection
/// and the two form fields.
pub fn recovery(
    number_of_paths: usize,
    selected_path: Option<usize>,
    feerate: &ValidatedField,
    address: &ValidatedField,
) -> (r: RecoveryScreen)
    ensures
        r.paths_available == (number_of_paths > 0),
        r.path_count == number_of_paths,
        r.next_enabled == (number_of_paths > 0 && proceed_allowed(
            address.valid,
            address.value@,
            feerate.valid,
            feerate.value@,
            selected_path,
        )),
{
    let paths_available = number_of_paths > 0;
    let next_enabled = paths_available && feerate.is_filled() && address.is_filled()
        && selected_path.is_some();
    RecoveryScreen { paths_available, path_count: number_of_paths, next_enabled }
}

/// What one row of the path list shows.
#[derive(PartialEq, Eq, Debug)]
pub struct RecoveryPathRow {
    /// Index of the path in the catalog; choosing the row selects it.
    pub index: usize,
    pub selected: bool,
    pub threshold: usize,
    /// Whether "signature" takes a plural.
    pub signatures_plural: bool,
    /// The signers, by alias where they have one.
    pub signers: Vec<SignerLabel>,
    pub number_of_coins: usize,
    /// Whether "coin" takes a plural.
    pub coins_plural: bool,
    pub total_amount: u64,
}

/// Describes one recovery path for display.
pub fn recovery_path_view(
    index: usize,
    threshold: usize,
    origins: &Vec<Origin>,
    total_amount: u64,
    number_of_coins: usize,
    key_aliases: &KeyAliasRegistry,
    selected: bool,
) -> (r: RecoveryPathRow)
    ensures
        r.index == index,
        r.selected == selected,
        r.threshold == threshold,
        r.signatures_plural == (threshold > 1),
        r.signers@.len() == origins@.len(),
        forall|i: int|
            0 <= i < origins@.len() ==> #[trigger] r.signers@[i]@ == label_of(
                key_aliases@,
                origins@[i].fingerprint,
            ),
        r.number_of_coins == number_of_coins,
        r.coins_plural == (number_of_coins > 0),
        r.total_amount == total_amount,
{
    RecoveryPathRow {
        index,
        selected,
        threshold,
        signatures_plural: threshold > 1,
        signers: key_aliases.labels(origins),
        number_of_coins,
        coins_plural: number_of_coins > 0,
        total_amount,
    }
}

/// An input event of the recovery screen.
#[derive(Debug)]
pub enum RecoveryEvent {
    EditAddress(String),
    EditFeerate(String),
    SelectPath(usize),
    Proceed,
}

/// The state of the recovery workflow: the available paths, the signers'
/// aliases, the form and the selection.
pub struct RecoveryWorkflow {
    network: Network,
    catalog: RecoveryPathCatalog,
    aliases: KeyAliasRegistry,
    address: ValidatedField,
    feerate: ValidatedField,
    selector: RecoveryPathSelector,
}

pub struct RecoveryWorkflowView {
    pub network: Network,
    pub catalog: Seq<RecoveryPathView>,
    pub aliases: Map<u32, Seq<char>>,
    pub address: Seq<char>,
    pub address_valid: bool,
    pub feerate: Seq<char>,
    pub feerate_valid: bool,
    pub selected: Option<usize>,
}

impl View for RecoveryWorkflow {
    type V = RecoveryWorkflowView;

    closed spec fn view(&self) -> RecoveryWorkflowView {
        RecoveryWorkflowView {
            network: self.network,
            catalog: self.catalog@,
            aliases: self.aliases@,
            address: self.address.value@,
            address_valid: self.address.valid,
            feerate: self.feerate.value@,
            feerate_valid: self.feerate.valid,
            selected: self.selector@,
        }
    }
}

/// The workflow's invariant: every listed path can meet its threshold, the
/// selection names a listed path, and each field's flag is the verdict on its
/// text.
pub open spec fn workflow_wf(w: RecoveryWorkflowView) -> bool {
    &&& forall|i: int|
        0 <= i < w.catalog.len() ==> threshold_ok(
            #[trigger] w.catalog[i].threshold,
            w.catalog[i].origins.len(),
        )
    &&& match w.selected {
        Some(i) => i < w.catalog.len(),
        None => true,
    }
    &&& w.address_valid == address_ok(w.address, w.network)
    &&& w.feerate_valid == feerate_ok(w.feerate)
}

/// Whether the workflow in state `w` may proceed.
pub open spec fn can_proceed_spec(w: RecoveryWorkflowView) -> bool {
    proceed_allowed(w.address_valid, w.address, w.feerate_valid, w.feerate, w.selected)
}

/// With no recovery path available the workflow cannot proceed, whatever the
/// destination and feerate entered.
pub proof fn lemma_empty_catalog_blocks_proceed(w: RecoveryWorkflowView)
    requires
        workflow_wf(w),
        w.catalog.len() == 0,
    ensures
        !can_proceed_spec(w),
{
}

impl RecoveryWorkflow {
    pub closed spec fn wf(&self) -> bool {
        &&& self.catalog.wf()
        &&& workflow_wf(self@)
    }

    /// The workflow before any snapshot or entry: no path, empty fields.
    pub fn new(network: Network, aliases: KeyAliasRegistry) -> (r: Self)
        ensures
            r.wf(),
            r@.network == network,
            r@.catalog == Seq::<RecoveryPathView>::empty(),
            r@.aliases == aliases@,
            r@.address == Seq::<char>::empty(),
            !r@.address_valid,
            r@.feerate == Seq::<char>::empty(),
            !r@.feerate_valid,
            r@.selected == None::<usize>,
    {
        RecoveryWorkflow {
            network,
            catalog: RecoveryPathCatalog::empty(),
            aliases,
            address: ValidatedField::new(),
            feerate: ValidatedField::new(),
            selector: RecoveryPathSelector::new(),
        }
    }

    /// Replaces the catalog; the selection is kept if it still names a path
    /// and cleared otherwise.
    pub fn set_catalog(&mut self, catalog: RecoveryPathCatalog)
        requires
            old(self).wf(),
            catalog.wf(),
        ensures
            final(self).wf(),
            final(self)@ == (RecoveryWorkflowView {
                catalog: catalog@,
                selected: selection_after_recompute(old(self)@.selected, catalog@.len()),
                ..old(self)@
            }),
    {
        let len = catalog.len();
        self.catalog = catalog;
        self.selector.revalidate(len);
    }

    /// Takes in a new wallet snapshot: the catalog is computed from it anew,
    /// and a selection that no longer names a path is cleared.
    pub fn update_snapshot(&mut self, snapshot: &WalletSnapshot)
        requires
            old(self).wf(),
            coins_total(snapshot.coins@) <= u64::MAX,
        ensures
            final(self).wf(),
            final(self)@ == (RecoveryWorkflowView {
                catalog: catalog_of(snapshot@),
                selected: selection_after_recompute(
                    old(self)@.selected,
                    catalog_of(snapshot@).len(),
                ),
                ..old(self)@
            }),
    {
        let catalog = RecoveryPathCatalog::compute(snapshot);
        self.set_catalog(catalog);
    }

    /// The user edited the destination; only that field is checked again.
    pub fn edit_address(&mut self, raw: &str)
        requires
            old(self).wf(),
        ensures
            final(self).wf(),
            final(self)@ == (RecoveryWorkflowView {
                address: trimmed(raw@),
                address_valid: address_ok(trimmed(raw@), old(self)@.network),
                ..old(self)@
            }),
    {
        self.address = ValidatedField::address(raw, self.network);
    }

    /// The user edited the feerate; only that field is checked again.
    pub fn edit_feerate(&mut self, raw: &str)
        requires
            old(self).wf(),
        ensures
            final(self).wf(),
            final(self)@ == (RecoveryWorkflowView {
                feerate: trimmed(raw@),
                feerate_valid: feerate_ok(trimmed(raw@)),
                ..old(self)@
            }),
    {
        self.feerate = ValidatedField::feerate(raw);
    }

    /// The user chose the path at `index`. An index past the catalog is
    /// ignored; choosing the selected path again changes nothing.
    pub fn select_path(&mut self, index: usize)
        requires
            old(self).wf(),
        ensures
            final(self).wf(),
            final(self)@ == (RecoveryWorkflowView {
                selected: selection_after_select(old(self)@.selected, index, old(self)@.catalog.len()),
                ..old(self)@
            }),
            index >= old(self)@.catalog.len() ==> final(self)@ == old(self)@,
            old(self)@.selected == Some(index) ==> final(self)@ == old(self)@,
    {
        let len = self.catalog.len();
        self.selector.select(index, len);
    }

    /// Clears the selection.
    pub fn reset_selection(&mut self)
        requires
            old(self).wf(),
        ensures
            final(self).wf(),
            final(self)@ == (RecoveryWorkflowView { selected: None, ..old(self)@ }),
    {
        self.selector.reset();
    }

    /// Whether the destination and the feerate are accepted and non-empty and
    /// a path is selected.
    pub fn can_proceed(&self) -> (r: bool)
        ensures
            r == can_proceed_spec(self@),
    {
        self.address.is_filled() && self.feerate.is_filled() && self.selector.selected().is_some()
    }

    /// Applies one event. Returns whether it was a request to proceed that is
    /// granted; a request that is not granted changes nothing.
    pub fn handle(&mut self, event: RecoveryEvent) -> (r: bool)
        requires
            old(self).wf(),
        ensures
            final(self).wf(),
            match event {
                RecoveryEvent::EditAddress(raw) => !r && final(self)@ == (RecoveryWorkflowView {
                    address: trimmed(raw@),
                    address_valid: address_ok(trimmed(raw@), old(self)@.network),
                    ..old(self)@
                }),
                RecoveryEvent::EditFeerate(raw) => !r && final(self)@ == (RecoveryWorkflowView {
                    feerate: trimmed(raw@),
                    feerate_valid: feerate_ok(trimmed(raw@)),
                    ..old(self)@
                }),
                RecoveryEvent::SelectPath(index) => !r && final(self)@ == (RecoveryWorkflowView {
                    selected: selection_after_select(
                        old(self)@.selected,
                        index,
                        old(self)@.catalog.len(),
                    ),
                    ..old(self)@
                }),
                RecoveryEvent::Proceed => r == can_proceed_spec(old(self)@) && final(self)@ == old(
                    self,
                )@,
            },
    {
        match event {
            RecoveryEvent::EditAddress(raw) => {
                self.edit_address(raw.as_str());
                false
            },
            RecoveryEvent::EditFeerate(raw) => {
                self.edit_feerate(raw.as_str());
                false
            },
            RecoveryEvent::SelectPath(index) => {
                self.select_path(index);
                false
            },
            RecoveryEvent::Proceed => self.can_proceed(),
        }
    }

    /// The recovery screen for the current state.
    pub fn screen(&self) -> (r: RecoveryScreen)
        requires
            self.wf(),
        ensures
            r.paths_available == (self@.catalog.len() > 0),
            r.path_count == self@.catalog.len(),
            r.next_enabled == can_proceed_spec(self@),
    {
        recovery(self.catalog.len(), self.selector.selected(), &self.feerate, &self.address)
    }

    /// The rows of the path list, in catalog order, with the selected one
    /// marked.
    pub fn path_rows(&self) -> (r: Vec<RecoveryPathRow>)
        requires
            self.wf(),
        ensures
            r@.len() == self@.catalog.len(),
            forall|i: int|
                0 <= i < r@.len() ==> {
                    &&& (#[trigger] r@[i]).index == i
                    &&& r@[i].selected == (self@.selected == Some(i as usize))
                    &&& r@[i].threshold == self@.catalog[i].threshold
                    &&& r@[i].signers@.len() == self@.catalog[i].origins.len()
                    &&& r@[i].number_of_coins == self@.catalog[i].number_of_coins
                    &&& r@[i].total_amount == self@.catalog[i].total_amount
                },
    {
        let mut rows: Vec<RecoveryPathRow> = Vec::new();
        let n = self.catalog.len();
        let mut i: usize = 0;
        while i < n
            invariant
                n == self@.catalog.len(),
                i <= n,
                rows@.len() == i,
                forall|j: int|
                    0 <= j < i ==> {
                        &&& (#[trigger] rows@[j]).index == j
                        &&& rows@[j].selected == (self@.selected == Some(j as usize))
                        &&& rows@[j].threshold == self@.catalog[j].threshold
                        &&& rows@[j].signers@.len() == self@.catalog[j].origins.len()
                        &&& rows@[j].number_of_coins == self@.catalog[j].number_of_coins
                        &&& rows@[j].total_amount == self@.catalog[j].total_amount
                    },
            decreases n - i,
        {
            let p = self.catalog.get(i);
            let selected = match self.selector.selected() {
                Some(s) => s == i,
                None => false,
            };
            rows.push(
                recovery_path_view(
                    i,
                    p.threshold,
                    &p.origins,
                    p.total_amount,
                    p.number_of_coins,
                    &self.aliases,
                    selected,
                ),
            );
            i = i + 1;
        }
        rows
    }

    /// The labels of the signers of the path at `index`.
    pub fn path_labels(&self, index: usize) -> (r: Vec<SignerLabel>)
        requires
            index < self@.catalog.len(),
        ensures
            r@.len() == self@.catalog[index as int].origins.len(),
            forall|i: int|
                0 <= i < r@.len() ==> #[trigger] r@[i]@ == label_of(
                    self@.aliases,
                    self@.catalog[index as int].origins[i].fingerprint,
                ),
    {
        self.aliases.labels(&self.catalog.get(index).origins)
    }

    pub fn network(&self) -> (r: Network)
        ensures
            r == self@.network,
    {
        self.network
    }

    pub fn catalog(&self) -> (r: &RecoveryPathCatalog)
        ensures
            r@ == self@.catalog,
    {
        &self.catalog
    }

    pub fn aliases(&self) -> (r: &KeyAliasRegistry)
        ensures
            r@ == self@.aliases,
    {
        &self.aliases
    }

    pub fn address(&self) -> (r: &ValidatedField)
        ensures
            r.value@ == self@.address,
            r.valid == self@.address_valid,
    {
        &self.address
    }

    pub fn feerate(&self) -> (r: &ValidatedField)
        ensures
            r.value@ == self@.feerate,
            r.valid == self@.feerate_valid,
    {
        &self.feerate
    }

    pub fn selected_path(&self) -> (r: Option<usize>)
        ensures
            r == self@.selected,
    {
        self.selector.selected()
    }
}

} // verus!
