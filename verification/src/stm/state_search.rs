//! The Search state: the asset catalogue in the left column, the pairs whose
//! base is the selected asset in the right column, and an active-column
//! selector deciding which list the cursor keys move. `Enter` appends the
//! selected pair's display name to the favorites. The one-time entry hook
//! lists the fetched assets and fetches the pair catalogue; on failure it
//! logs and leaves the catalogue empty.

use crate::app::{log_push, Context, ContextV, ModelV};
use crate::kraken::client::{find_pair, find_pair_index, AssetPairEntryV, RestAPI};
use crate::list::{lemma_seq_deep_push, seq_deep, spec_next, spec_previous, ListV};
use crate::stm::events::{Event, KeyCode};
use crate::stm::States;
use vstd::prelude::*;

verus! {

/// Which of the two side-by-side lists currently receives `Up`/`Down`.
#[derive(Debug, Clone, Copy, PartialEq, Eq, Structural)]
pub enum ActiveColumn {
    Assets,
    AssetPairs,
}

/// Handler of the Search state, carrying its one-time entry flag and the
/// active-column selector.
#[derive(Debug)]
pub struct SearchState {
    /// Still waiting for the first entry into this state; the entry hook
    /// runs at most once per process lifetime and this flag is never reset.
    pub on_enter_first: bool,
    /// The column the cursor keys currently move.
    pub active_column: ActiveColumn,
}

impl Default for SearchState {
    fn default() -> (r: Self)
        ensures
            r.on_enter_first,
            r.active_column == ActiveColumn::Assets,
    {
        SearchState { on_enter_first: true, active_column: ActiveColumn::Assets }
    }
}

/// The display names of the pairs among the first `n` catalogue entries
/// whose base equals `asset` and which carry a display name, in catalogue
/// order.
pub open spec fn spec_filtered_prefix(
    pairs: Seq<AssetPairEntryV>,
    asset: Seq<char>,
    n: int,
) -> Seq<Seq<char>>
    decreases n,
{
    if n <= 0 || n > pairs.len() {
        Seq::empty()
    } else {
        let rest = spec_filtered_prefix(pairs, asset, n - 1);
        let p = pairs[n - 1].pair;
        if p.base == asset {
            match p.wsname {
                Some(w) => rest.push(w),
                None => rest,
            }
        } else {
            rest
        }
    }
}

/// Exactly the pairs whose base equals `asset` and which carry a display
/// name, as their display names in catalogue order.
pub open spec fn spec_filtered(pairs: Seq<AssetPairEntryV>, asset: Seq<char>) -> Seq<Seq<char>> {
    spec_filtered_prefix(pairs, asset, pairs.len() as int)
}

/// A display name stands in the first `n` entries' filtered set exactly when
/// one of those entries has `asset` as its base and carries that name.
pub proof fn lemma_filtered_prefix_member(
    pairs: Seq<AssetPairEntryV>,
    asset: Seq<char>,
    n: int,
    w: Seq<char>,
)
    requires
        0 <= n <= pairs.len(),
    ensures
        spec_filtered_prefix(pairs, asset, n).contains(w) <==> exists|j: int|
            0 <= j < n && pairs[j].pair.base == asset && pairs[j].pair.wsname == Some(w),
    decreases n,
{
    if n > 0 {
        lemma_filtered_prefix_member(pairs, asset, n - 1, w);
        let rest = spec_filtered_prefix(pairs, asset, n - 1);
        let cur = spec_filtered_prefix(pairs, asset, n);
        let p = pairs[n - 1].pair;
        if p.base == asset && p.wsname is Some {
            let wn = p.wsname->0;
            assert(cur == rest.push(wn));
            if cur.contains(w) {
                let i = choose|i: int| 0 <= i < cur.len() && cur[i] == w;
                if i < rest.len() {
                    assert(rest[i] == w);
                    let j = choose|j: int|
                        0 <= j < n - 1 && pairs[j].pair.base == asset && pairs[j].pair.wsname
                            == Some(w);
                    assert(0 <= j < n && pairs[j].pair.base == asset && pairs[j].pair.wsname
                        == Some(w));
                } else {
                    assert(w == wn);
                    assert(0 <= n - 1 < n && pairs[n - 1].pair.base == asset && pairs[n
                        - 1].pair.wsname == Some(w));
                }
            }
            if exists|j: int|
                0 <= j < n && pairs[j].pair.base == asset && pairs[j].pair.wsname == Some(w) {
                let j = choose|j: int|
                    0 <= j < n && pairs[j].pair.base == asset && pairs[j].pair.wsname == Some(w);
                if j < n - 1 {
                    assert(rest.contains(w));
                    let i = choose|i: int| 0 <= i < rest.len() && rest[i] == w;
                    assert(cur[i] == w);
                } else {
                    assert(cur[cur.len() - 1] == w);
                }
            }
        } else {
            assert(cur == rest);
            if exists|j: int|
                0 <= j < n && pairs[j].pair.base == asset && pairs[j].pair.wsname == Some(w) {
                let j = choose|j: int|
                    0 <= j < n && pairs[j].pair.base == asset && pairs[j].pair.wsname == Some(w);
                assert(j < n - 1);
            }
        }
    }
}

/// Law: a display name stands in the filtered set for `asset` exactly when
/// some catalogue pair has `asset` as its base and carries that display
/// name: the filter keeps all such pairs and nothing else.
pub proof fn lemma_filtered_member(pairs: Seq<AssetPairEntryV>, asset: Seq<char>, w: Seq<char>)
    ensures
        spec_filtered(pairs, asset).contains(w) <==> exists|j: int|
            0 <= j < pairs.len() && pairs[j].pair.base == asset && pairs[j].pair.wsname == Some(w),
{
    lemma_filtered_prefix_member(pairs, asset, pairs.len() as int, w);
}

/// The rows the filtered-pairs column shows for the model's current assets
/// selection: nothing when no asset is selected.
pub open spec fn spec_filtered_for(m: ModelV) -> Seq<Seq<char>> {
    match m.assets_list.selected {
        None => Seq::empty(),
        Some(i) => if 0 <= i < m.assets_list.items.len() {
            spec_filtered(m.asset_pairs, m.assets_list.items[i])
        } else {
            Seq::empty()
        },
    }
}

/// The model with its filtered-pairs column recomputed from the current
/// assets selection, replacing (never appending to) whatever it held.
pub open spec fn spec_with_filtered(m: ModelV) -> ModelV {
    ModelV {
        pairs_list: ListV { items: spec_filtered_for(m), selected: None, offset: 0 },
        ..m
    }
}

/// The display names of the matching pairs, gathered from the catalogue.
fn collect_pair_names(pairs: &Vec<crate::kraken::client::AssetPairEntry>, asset: &String) -> (r:
    Vec<String>)
    ensures
        seq_deep(r@) == spec_filtered(seq_deep(pairs@), asset@),
{
    let ghost pv = seq_deep(pairs@);
    let mut r: Vec<String> = Vec::new();
    let mut i: usize = 0;
    while i < pairs.len()
        invariant
            i <= pairs@.len(),
            pv == seq_deep(pairs@),
            seq_deep(r@) == spec_filtered_prefix(pv, asset@, i as int),
        decreases pairs@.len() - i,
    {
        let p = &pairs[i].pair;
        if p.base == *asset {
            match &p.wsname {
                Some(w) => {
                    proof {
                        lemma_seq_deep_push(r@, *w);
                    }
                    r.push(w.clone());
                },
                None => {},
            }
        }
        i = i + 1;
    }
    r
}

impl SearchState {
    /// The transition this state requests for an event: Home on `h`, nothing
    /// otherwise.
    pub open spec fn spec_request(ev: Event) -> Option<States> {
        match ev {
            Event::Key { key_code: KeyCode::Char('h') } => Some(States::Home),
            _ => None,
        }
    }

    /// The model and active column after this state handled an event.
    /// `Down`/`Up` move the active column's cursor, refiltering the pairs
    /// when the assets column moves; `Left` steps back towards the assets
    /// column; `Right` enters a non-empty pairs column and selects its first
    /// row; `Enter` appends the selected pair's display name to the
    /// favorites; unrecognized events leave one line in the diagnostic log.
    pub open spec fn spec_step(m: ModelV, col: ActiveColumn, ev: Event) -> (ModelV, ActiveColumn) {
        match ev {
            Event::Key { key_code: KeyCode::Down } => match col {
                ActiveColumn::Assets => (
                    spec_with_filtered(
                        ModelV {
                            assets_list: ListV {
                                selected: spec_next(
                                    m.assets_list.selected,
                                    m.assets_list.items.len() as int,
                                ),
                                ..m.assets_list
                            },
                            ..m
                        },
                    ),
                    col,
                ),
                ActiveColumn::AssetPairs => (
                    ModelV {
                        pairs_list: ListV {
                            selected: spec_next(
                                m.pairs_list.selected,
                                m.pairs_list.items.len() as int,
                            ),
                            ..m.pairs_list
                        },
                        ..m
                    },
                    col,
                ),
            },
            Event::Key { key_code: KeyCode::Up } => match col {
                ActiveColumn::Assets => (
                    spec_with_filtered(
                        ModelV {
                            assets_list: ListV {
                                selected: spec_previous(
                                    m.assets_list.selected,
                                    m.assets_list.items.len() as int,
                                ),
                                ..m.assets_list
                            },
                            ..m
                        },
                    ),
                    col,
                ),
                ActiveColumn::AssetPairs => (
                    ModelV {
                        pairs_list: ListV {
                            selected: spec_previous(
                                m.pairs_list.selected,
                                m.pairs_list.items.len() as int,
                            ),
                            ..m.pairs_list
                        },
                        ..m
                    },
                    col,
                ),
            },
            Event::Key { key_code: KeyCode::Left } => match col {
                ActiveColumn::Assets => (
                    ModelV {
                        assets_list: ListV { selected: None, ..m.assets_list },
                        pairs_list: ListV { items: Seq::empty(), selected: None, offset: 0 },
                        ..m
                    },
                    col,
                ),
                ActiveColumn::AssetPairs => (
                    ModelV { pairs_list: ListV { selected: None, ..m.pairs_list }, ..m },
                    ActiveColumn::Assets,
                ),
            },
            Event::Key { key_code: KeyCode::Right } => match col {
                ActiveColumn::Assets => if m.pairs_list.items.len() > 0 {
                    (
                        ModelV {
                            pairs_list: ListV {
                                selected: spec_next(
                                    m.pairs_list.selected,
                                    m.pairs_list.items.len() as int,
                                ),
                                ..m.pairs_list
                            },
                            ..m
                        },
                        ActiveColumn::AssetPairs,
                    )
                } else {
                    (m, col)
                },
                ActiveColumn::AssetPairs => (m, col),
            },
            Event::Key { key_code: KeyCode::Enter } => match col {
                ActiveColumn::Assets => (m, col),
                ActiveColumn::AssetPairs => match m.pairs_list.selected {
                    None => (m, col),
                    Some(i) => if 0 <= i < m.pairs_list.items.len() && find_pair(
                        m.asset_pairs,
                        m.pairs_list.items[i],
                    ) is Some {
                        (
                            ModelV {
                                favorites: ListV {
                                    items: m.favorites.items.push(m.pairs_list.items[i]),
                                    ..m.favorites
                                },
                                ..m
                            },
                            col,
                        )
                    } else {
                        (m, col)
                    },
                },
            },
            Event::Key { key_code: KeyCode::Char('h') } => (m, col),
            _ => (log_push(m, "[SearchS] on_event not match"@), col),
        }
    }

    /// Recompute the filtered-pairs column from the current assets
    /// selection: clear it, then fill it with the display names of the pairs
    /// whose base equals the selected asset.
    pub fn filter_asset_pairs<C>(ctx: &mut Context<C>)
        requires
            old(ctx).wf(),
        ensures
            final(ctx)@ == (ContextV {
                model: spec_with_filtered(old(ctx)@.model),
                ..old(ctx)@
            }),
            final(ctx).wf(),
    {
        ctx.model.asset_pairs_stateful.clear();
        let selected = ctx.model.assets_stateful.state.selected();
        if let Some(index) = selected {
            if index < ctx.model.assets_stateful.items.len() {
                let mut names = collect_pair_names(
                    &ctx.model.asset_pairs,
                    &ctx.model.assets_stateful.items[index],
                );
                ctx.model.asset_pairs_stateful.append(&mut names);
            }
        }
        proof {
            assert(ctx@ =~~= (ContextV { model: spec_with_filtered(old(ctx)@.model), ..old(ctx)@ }));
        }
    }

    /// Handle one event: navigate the two columns, curate favorites on
    /// `Enter`, request Home on `h`.
    pub fn on_event<C>(&mut self, event: Event, ctx: &mut Context<C>) -> (r: Option<
        States,
    >)
        requires
            old(ctx).wf(),
        ensures
            r == Self::spec_request(event),
            ({
                let (m2, col2) = Self::spec_step(
                    old(ctx)@.model,
                    old(self).active_column,
                    event,
                );
                &&& final(ctx)@ == (ContextV { model: m2, ..old(ctx)@ })
                &&& final(self).active_column == col2
            }),
            final(self).on_enter_first == old(self).on_enter_first,
            final(ctx).wf(),
    {
        match event {
            Event::Key { key_code: KeyCode::Down } => {
                match self.active_column {
                    ActiveColumn::Assets => {
                        ctx.model.assets_stateful.next();
                        proof {
                            assert(ctx@.model =~~= (ModelV {
                                assets_list: ListV {
                                    selected: spec_next(
                                        old(ctx)@.model.assets_list.selected,
                                        old(ctx)@.model.assets_list.items.len() as int,
                                    ),
                                    ..old(ctx)@.model.assets_list
                                },
                                ..old(ctx)@.model
                            }));
                        }
                        Self::filter_asset_pairs(ctx);
                        proof {
                            assert(ctx@ =~~= (ContextV {
                                model: Self::spec_step(
                                    old(ctx)@.model,
                                    old(self).active_column,
                                    event,
                                ).0,
                                ..old(ctx)@
                            }));
                        }
                    },
                    ActiveColumn::AssetPairs => {
                        ctx.model.asset_pairs_stateful.next();
                        proof {
                            assert(ctx@ =~~= (ContextV {
                                model: Self::spec_step(
                                    old(ctx)@.model,
                                    old(self).active_column,
                                    event,
                                ).0,
                                ..old(ctx)@
                            }));
                        }
                    },
                }
                None
            },
            Event::Key { key_code: KeyCode::Up } => {
                match self.active_column {
                    ActiveColumn::Assets => {
                        ctx.model.assets_stateful.previous();
                        proof {
                            assert(ctx@.model =~~= (ModelV {
                                assets_list: ListV {
                                    selected: spec_previous(
                                        old(ctx)@.model.assets_list.selected,
                                        old(ctx)@.model.assets_list.items.len() as int,
                                    ),
                                    ..old(ctx)@.model.assets_list
                                },
                                ..old(ctx)@.model
                            }));
                        }
                        Self::filter_asset_pairs(ctx);
                        proof {
                            assert(ctx@ =~~= (ContextV {
                                model: Self::spec_step(
                                    old(ctx)@.model,
                                    old(self).active_column,
                                    event,
                                ).0,
                                ..old(ctx)@
                            }));
                        }
                    },
                    ActiveColumn::AssetPairs => {
                        ctx.model.asset_pairs_stateful.previous();
                        proof {
                            assert(ctx@ =~~= (ContextV {
                                model: Self::spec_step(
                                    old(ctx)@.model,
                                    old(self).active_column,
                                    event,
                                ).0,
                                ..old(ctx)@
                            }));
                        }
                    },
                }
                None
            },
            Event::Key { key_code: KeyCode::Left } => {
                match self.active_column {
                    ActiveColumn::Assets => {
                        ctx.model.assets_stateful.unselect();
                        ctx.model.asset_pairs_stateful.clear();
                    },
                    ActiveColumn::AssetPairs => {
                        self.active_column = ActiveColumn::Assets;
                        ctx.model.asset_pairs_stateful.unselect();
                    },
                }
                proof {
                    assert(ctx@ =~~= (ContextV {
                        model: Self::spec_step(old(ctx)@.model, old(self).active_column, event).0,
                        ..old(ctx)@
                    }));
                }
                None
            },
            Event::Key { key_code: KeyCode::Right } => {
                match self.active_column {
                    ActiveColumn::Assets => {
                        if ctx.model.asset_pairs_stateful.items.len() > 0 {
                            self.active_column = ActiveColumn::AssetPairs;
                            ctx.model.asset_pairs_stateful.next();
                        }
                    },
                    ActiveColumn::AssetPairs => {},
                }
                proof {
                    assert(ctx@ =~~= (ContextV {
                        model: Self::spec_step(old(ctx)@.model, old(self).active_column, event).0,
                        ..old(ctx)@
                    }));
                }
                None
            },
            Event::Key { key_code: KeyCode::Enter } => {
                match self.active_column {
                    ActiveColumn::Assets => {},
                    ActiveColumn::AssetPairs => {
                        if let Some(index) = ctx.model.asset_pairs_stateful.state.selected() {
                            if index < ctx.model.asset_pairs_stateful.items.len() {
                                let found = find_pair_index(
                                    &ctx.model.asset_pairs,
                                    &ctx.model.asset_pairs_stateful.items[index],
                                );
                                if found.is_some() {
                                    let fav = ctx.model.asset_pairs_stateful.items[index].clone();
                                    proof {
                                        lemma_seq_deep_push(
                                            ctx.model.favorites_asset_pairs_stateful.items@,
                                            fav,
                                        );
                                    }
                                    ctx.model.favorites_asset_pairs_stateful.push(fav);
                                }
                            }
                        }
                    },
                }
                proof {
                    assert(ctx@ =~~= (ContextV {
                        model: Self::spec_step(old(ctx)@.model, old(self).active_column, event).0,
                        ..old(ctx)@
                    }));
                }
                None
            },
            Event::Key { key_code: KeyCode::Char('h') } => Some(States::Home),
            _ => {
                ctx.debug("[SearchS] on_event not match".to_owned());
                None
            },
        }
    }

    /// The model after the one-time entry hook ran, given how the pair
    /// catalogue fetch turned out: the assets column gains one row per
    /// fetched asset key, every path leaves readable lines in the diagnostic
    /// log, and only a successful fetch replaces the pair catalogue.
    pub open spec fn spec_enter(m: ModelV, fetched: Option<Seq<AssetPairEntryV>>) -> ModelV {
        let m1 = log_push(m, "[SearchS] on_enter_once"@);
        let keys = m.assets.map_values(|a: crate::kraken::client::AssetEntryV| a.key);
        let m2 = ModelV {
            assets_list: ListV {
                items: m1.assets_list.items + keys,
                ..m1.assets_list
            },
            ..m1
        };
        match fetched {
            Some(ps) => ModelV {
                asset_pairs: ps,
                ..log_push(m2, "[SearchS] on_enter_once kraken_api list_asset_pairs."@)
            },
            None => log_push(m2, "[SearchS] on_enter_once kraken_api list_asset_pairs failed."@),
        }
    }

    /// One-time entry hook: list the fetched asset keys in the assets column
    /// and fetch the pair catalogue; on failure, log and leave the catalogue
    /// as it was.
    pub fn on_enter_once<C: RestAPI>(&mut self, ctx: &mut Context<C>)
        requires
            old(ctx).wf(),
        ensures
            !final(self).on_enter_first,
            final(self).active_column == old(self).active_column,
            exists|fetched: Option<Seq<AssetPairEntryV>>|
                final(ctx)@.model == #[trigger] Self::spec_enter(old(ctx)@.model, fetched),
            final(ctx)@.app_id == old(ctx)@.app_id,
            final(ctx)@.app_version == old(ctx)@.app_version,
            final(ctx).wf(),
    {
        self.on_enter_first = false;
        ctx.debug("[SearchS] on_enter_once".to_owned());

        let ghost keys = old(ctx)@.model.assets.map_values(
            |a: crate::kraken::client::AssetEntryV| a.key,
        );
        let ghost c1 = ctx@;
        let mut i: usize = 0;
        while i < ctx.model.assets.len()
            invariant
                i <= ctx.model.assets@.len(),
                old(ctx).wf(),
                ctx.wf(),
                ctx.model.assets == old(ctx).model.assets,
                keys == old(ctx)@.model.assets.map_values(
                    |a: crate::kraken::client::AssetEntryV| a.key,
                ),
                c1 == (ContextV {
                    model: log_push(old(ctx)@.model, "[SearchS] on_enter_once"@),
                    ..old(ctx)@
                }),
                ctx@ == (ContextV {
                    model: ModelV {
                        assets_list: ListV {
                            items: c1.model.assets_list.items + keys.take(i as int),
                            ..c1.model.assets_list
                        },
                        ..c1.model
                    },
                    ..c1
                }),
            decreases ctx.model.assets@.len() - i,
        {
            let key = ctx.model.assets[i].key.clone();
            proof {
                lemma_seq_deep_push(ctx.model.assets_stateful.items@, key);
                assert(keys[i as int] == ctx.model.assets@[i as int].deep_view().key);
                assert(keys.take(i + 1int) =~= keys.take(i as int).push(keys[i as int]));
            }
            ctx.model.assets_stateful.push(key);
            proof {
                assert(ctx@ =~~= (ContextV {
                    model: ModelV {
                        assets_list: ListV {
                            items: c1.model.assets_list.items + keys.take(i + 1int),
                            ..c1.model.assets_list
                        },
                        ..c1.model
                    },
                    ..c1
                }));
            }
            i = i + 1;
        }
        proof {
            assert(keys.take(ctx.model.assets@.len() as int) =~= keys);
        }

        let result = ctx.kraken_api.list_asset_pairs();
        match result {
            Some(asset_pairs) => {
                ctx.debug("[SearchS] on_enter_once kraken_api list_asset_pairs.".to_owned());
                let ghost fetched = seq_deep(asset_pairs@);
                ctx.model.asset_pairs = asset_pairs;
                proof {
                    assert(ctx@.model =~~= Self::spec_enter(old(ctx)@.model, Some(fetched)));
                }
            },
            None => {
                ctx.debug("[SearchS] on_enter_once kraken_api list_asset_pairs failed.".to_owned());
                proof {
                    assert(ctx@.model =~~= Self::spec_enter(
                        old(ctx)@.model,
                        None::<Seq<AssetPairEntryV>>,
                    ));
                }
            },
        }
    }

    /// The description the Help overlay shows for this state.
    pub fn help_text(&self) -> (r: &'static str)
        ensures
            r@ == Self::spec_help_text(),
    {
        "\n      ESC    -> back\n      UP     -> previous\n      DOWN   -> next\n      LEFT   -> previous\n      RIGHT  -> select\n      ENTER  -> add to favorites\n      h      -> home\n      D      -> show Debug\n    "
    }

    /// The Help overlay text of this state.
    pub open spec fn spec_help_text() -> Seq<char> {
        "\n      ESC    -> back\n      UP     -> previous\n      DOWN   -> next\n      LEFT   -> previous\n      RIGHT  -> select\n      ENTER  -> add to favorites\n      h      -> home\n      D      -> show Debug\n    "@
    }
}

} // verus!
