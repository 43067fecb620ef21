//! The Home state: the curated favorites on the left, the detail pane of the
//! selected favorite on the right. Its one-time entry hook connects to the
//! exchange and fetches the asset catalogue; on failure it logs and leaves
//! the catalogue empty.

use crate::app::{log_push, Context, ContextV, ModelV};
use crate::kraken::client::{find_pair, find_pair_index, AssetEntryV, AssetPair, AssetPairV, RestAPI};
use crate::list::{
    lemma_seq_deep_push, seq_deep, spec_next, spec_previous, ListV, StatefulList,
};
use crate::stm::events::{Event, KeyCode};
use crate::stm::States;
use crate::text::{opt_plain, opt_quoted, spec_dec, spec_opt_plain, spec_opt_quoted, u64_to_string};
use vstd::prelude::*;
use vstd::string::StringExecFns;

verus! {

/// Handler of the Home state, carrying its one-time entry flag.
#[derive(Debug)]
pub struct HomeState {
    /// Still waiting for the first entry into this state; the entry hook
    /// runs at most once per process lifetime and this flag is never reset.
    pub on_enter_first: bool,
}

impl Default for HomeState {
    fn default() -> (r: Self)
        ensures
            r.on_enter_first,
    {
        HomeState { on_enter_first: true }
    }
}

/// The comma-separated joining of the given text parts.
pub open spec fn spec_join_comma(parts: Seq<Seq<char>>) -> Seq<char>
    decreases parts.len(),
{
    if parts.len() == 0 {
        Seq::empty()
    } else if parts.len() == 1 {
        parts[0]
    } else {
        spec_join_comma(parts.drop_last()) + ", "@ + parts.last()
    }
}

/// The detail line of one fee tier.
pub open spec fn spec_fee_line(fee: Seq<Seq<char>>) -> Seq<char> {
    "             - ["@ + spec_join_comma(fee) + "]"@
}

/// The fixed-label lines of the detail pane above the fee tiers.
pub open spec fn spec_detail_head(p: AssetPairV) -> Seq<Seq<char>> {
    seq![
        "      alt_name:"@ + spec_opt_quoted(p.alt_name),
        "        wsname:"@ + spec_opt_quoted(p.wsname),
        "   aclass_base:"@ + p.aclass_base,
        "          base:"@ + p.base,
        "  aclass_quote:"@ + p.aclass_quote,
        "         quote:"@ + p.quote,
        " pair_decimals:"@ + spec_dec(p.pair_decimals as nat),
        "  lot_decimals:"@ + spec_dec(p.lot_decimals as nat),
        "lot_multiplier:"@ + spec_dec(p.lot_multiplier as nat),
        "          fees:"@,
    ]
}

/// All detail lines of one pair: the labelled fields, one line per fee tier,
/// and the minimum order size.
pub open spec fn spec_detail_lines(p: AssetPairV) -> Seq<Seq<char>> {
    spec_detail_head(p) + p.fees.map_values(|f: Seq<Seq<char>>| spec_fee_line(f)) + seq![
        "      ordermin:"@ + spec_opt_plain(p.ordermin),
    ]
}

/// The lines the detail pane shows for the model's current favorites
/// selection: the fields of the first catalogue pair whose display name
/// equals the selected favorite, or nothing when no favorite is selected or
/// no pair matches.
pub open spec fn spec_info_lines(m: ModelV) -> Seq<Seq<char>> {
    match m.favorites.selected {
        None => Seq::empty(),
        Some(i) => if 0 <= i < m.favorites.items.len() {
            match find_pair(m.asset_pairs, m.favorites.items[i]) {
                None => Seq::empty(),
                Some(p) => spec_detail_lines(p),
            }
        } else {
            Seq::empty()
        },
    }
}

/// The model with its detail pane recomputed from the current favorites
/// selection, replacing whatever it held.
pub open spec fn spec_with_info(m: ModelV) -> ModelV {
    ModelV {
        favorite_info: ListV { items: spec_info_lines(m), selected: None, offset: 0 },
        ..m
    }
}

/// Join the parts with comma separators.
fn join_comma(parts: &Vec<String>) -> (r: String)
    ensures
        r@ == spec_join_comma(seq_deep(parts@)),
{
    let ghost pv = seq_deep(parts@);
    let mut r = String::new();
    let mut i: usize = 0;
    while i < parts.len()
        invariant
            i <= parts@.len(),
            pv == seq_deep(parts@),
            r@ == spec_join_comma(pv.take(i as int)),
        decreases parts@.len() - i,
    {
        if i > 0 {
            r.append(", ");
        }
        r.append(parts[i].as_str());
        proof {
            assert(pv.take(i + 1int).drop_last() =~= pv.take(i as int));
            assert(pv.take(i + 1int).last() == pv[i as int]);
        }
        i = i + 1;
    }
    proof {
        assert(pv.take(parts@.len() as int) =~= pv);
    }
    r
}

/// Build the detail line of one fee tier.
fn fee_line(fee: &Vec<String>) -> (r: String)
    ensures
        r@ == spec_fee_line(seq_deep(fee@)),
{
    let mut r = "             - [".to_owned();
    let joined = join_comma(fee);
    r.append(joined.as_str());
    r.append("]");
    r
}

/// Append the detail lines of one pair to a list, leaving its cursor alone.
fn push_detail_lines(list: &mut StatefulList<String>, pair: &AssetPair)
    ensures
        final(list)@ == (ListV {
            items: old(list)@.items + spec_detail_lines(pair.deep_view()),
            ..old(list)@
        }),
        old(list).wf() ==> final(list).wf(),
{
    let ghost p = pair.deep_view();
    let ghost items0 = list@.items;

    let mut l = "      alt_name:".to_owned();
    let t = opt_quoted(&pair.alt_name);
    l.append(t.as_str());
    proof {
        lemma_seq_deep_push(list.items@, l);
    }
    list.push(l);

    let mut l = "        wsname:".to_owned();
    let t = opt_quoted(&pair.wsname);
    l.append(t.as_str());
    proof {
        lemma_seq_deep_push(list.items@, l);
    }
    list.push(l);

    let mut l = "   aclass_base:".to_owned();
    l.append(pair.aclass_base.as_str());
    proof {
        lemma_seq_deep_push(list.items@, l);
    }
    list.push(l);

    let mut l = "          base:".to_owned();
    l.append(pair.base.as_str());
    proof {
        lemma_seq_deep_push(list.items@, l);
    }
    list.push(l);

    let mut l = "  aclass_quote:".to_owned();
    l.append(pair.aclass_quote.as_str());
    proof {
        lemma_seq_deep_push(list.items@, l);
    }
    list.push(l);

    let mut l = "         quote:".to_owned();
    l.append(pair.quote.as_str());
    proof {
        lemma_seq_deep_push(list.items@, l);
    }
    list.push(l);

    let mut l = " pair_decimals:".to_owned();
    let t = u64_to_string(pair.pair_decimals);
    l.append(t.as_str());
    proof {
        lemma_seq_deep_push(list.items@, l);
    }
    list.push(l);

    let mut l = "  lot_decimals:".to_owned();
    let t = u64_to_string(pair.lot_decimals);
    l.append(t.as_str());
    proof {
        lemma_seq_deep_push(list.items@, l);
    }
    list.push(l);

    let mut l = "lot_multiplier:".to_owned();
    let t = u64_to_string(pair.lot_multiplier);
    l.append(t.as_str());
    proof {
        lemma_seq_deep_push(list.items@, l);
    }
    list.push(l);

    let l = "          fees:".to_owned();
    proof {
        lemma_seq_deep_push(list.items@, l);
    }
    list.push(l);

    proof {
        assert(list@.items =~= items0 + spec_detail_head(p));
    }

    let ghost fee_views = p.fees.map_values(|f: Seq<Seq<char>>| spec_fee_line(f));
    let mut i: usize = 0;
    while i < pair.fees.len()
        invariant
            i <= pair.fees@.len(),
            p == pair.deep_view(),
            fee_views == p.fees.map_values(|f: Seq<Seq<char>>| spec_fee_line(f)),
            list@.items == items0 + spec_detail_head(p) + fee_views.take(i as int),
            list@.selected == old(list)@.selected,
            list@.offset == old(list)@.offset,
            list.state == old(list).state,
        decreases pair.fees@.len() - i,
    {
        let l = fee_line(&pair.fees[i]);
        proof {
            lemma_seq_deep_push(list.items@, l);
            assert(p.fees[i as int] == seq_deep(pair.fees@[i as int]@));
            assert(fee_views.take(i + 1int) =~= fee_views.take(i as int).push(
                spec_fee_line(p.fees[i as int]),
            ));
        }
        list.push(l);
        proof {
            assert(list@.items =~= items0 + spec_detail_head(p) + fee_views.take(i + 1int));
        }
        i = i + 1;
    }

    let mut l = "      ordermin:".to_owned();
    let t = opt_plain(&pair.ordermin);
    l.append(t.as_str());
    proof {
        lemma_seq_deep_push(list.items@, l);
        assert(fee_views.take(pair.fees@.len() as int) =~= fee_views);
    }
    list.push(l);

    proof {
        assert(list@.items =~= old(list)@.items + spec_detail_lines(p));
        assert(list@ =~~= (ListV {
            items: old(list)@.items + spec_detail_lines(pair.deep_view()),
            ..old(list)@
        }));
    }
}

impl HomeState {
    /// The transition this state requests for an event: Search on `f`,
    /// nothing otherwise.
    pub open spec fn spec_request(ev: Event) -> Option<States> {
        match ev {
            Event::Key { key_code: KeyCode::Char('f') } => Some(States::Search),
            _ => None,
        }
    }

    /// The model after this state handled an event: `Down`/`Up` move the
    /// favorites cursor and recompute the detail pane; `Left` clears the
    /// selection and the pane; `d` removes the selected favorite and clears
    /// the pane; unrecognized events leave one line in the diagnostic log.
    pub open spec fn spec_step(m: ModelV, ev: Event) -> ModelV {
        match ev {
            Event::Key { key_code: KeyCode::Char('f') } => m,
            Event::Key { key_code: KeyCode::Down } => spec_with_info(
                ModelV {
                    favorites: ListV {
                        selected: spec_next(m.favorites.selected, m.favorites.items.len() as int),
                        ..m.favorites
                    },
                    ..m
                },
            ),
            Event::Key { key_code: KeyCode::Up } => spec_with_info(
                ModelV {
                    favorites: ListV {
                        selected: spec_previous(
                            m.favorites.selected,
                            m.favorites.items.len() as int,
                        ),
                        ..m.favorites
                    },
                    ..m
                },
            ),
            Event::Key { key_code: KeyCode::Left } => ModelV {
                favorites: ListV { selected: None, ..m.favorites },
                favorite_info: ListV { items: Seq::empty(), selected: None, offset: 0 },
                ..m
            },
            Event::Key { key_code: KeyCode::Char('d') } => match m.favorites.selected {
                None => m,
                Some(i) => ModelV {
                    favorites: ListV {
                        items: if 0 <= i < m.favorites.items.len() {
                            m.favorites.items.remove(i)
                        } else {
                            m.favorites.items
                        },
                        selected: None,
                        ..m.favorites
                    },
                    favorite_info: ListV { items: Seq::empty(), selected: None, offset: 0 },
                    ..m
                },
            },
            _ => log_push(m, "[HomeS] on_event not match"@),
        }
    }

    /// Recompute the detail pane from the current favorites selection: clear
    /// it, then fill it with the fields of the first catalogue pair whose
    /// display name equals the selected favorite.
    pub fn show_asset_pair_info<C>(ctx: &mut Context<C>)
        requires
            old(ctx).wf(),
        ensures
            final(ctx)@ == (ContextV {
                model: spec_with_info(old(ctx)@.model),
                ..old(ctx)@
            }),
            final(ctx).wf(),
    {
        ctx.model.favorites_asset_pairs_info_stateful.clear();
        let selected = ctx.model.favorites_asset_pairs_stateful.state.selected();
        if let Some(index) = selected {
            if index < ctx.model.favorites_asset_pairs_stateful.items.len() {
                let found = find_pair_index(
                    &ctx.model.asset_pairs,
                    &ctx.model.favorites_asset_pairs_stateful.items[index],
                );
                if let Some(pair_index) = found {
                    push_detail_lines(
                        &mut ctx.model.favorites_asset_pairs_info_stateful,
                        &ctx.model.asset_pairs[pair_index].pair,
                    );
                }
            }
        }
        proof {
            assert(ctx@ =~~= (ContextV { model: spec_with_info(old(ctx)@.model), ..old(ctx)@ }));
        }
    }

    /// Handle one event: request Search on `f`, navigate and curate the
    /// favorites otherwise.
    pub fn on_event<C>(&self, event: Event, ctx: &mut Context<C>) -> (r: Option<States>)
        requires
            old(ctx).wf(),
        ensures
            r == Self::spec_request(event),
            final(ctx)@ == (ContextV {
                model: Self::spec_step(old(ctx)@.model, event),
                ..old(ctx)@
            }),
            final(ctx).wf(),
    {
        match event {
            Event::Key { key_code: KeyCode::Char('f') } => Some(States::Search),
            Event::Key { key_code: KeyCode::Down } => {
                ctx.model.favorites_asset_pairs_stateful.next();
                Self::show_asset_pair_info(ctx);
                None
            },
            Event::Key { key_code: KeyCode::Up } => {
                ctx.model.favorites_asset_pairs_stateful.previous();
                Self::show_asset_pair_info(ctx);
                None
            },
            Event::Key { key_code: KeyCode::Left } => {
                ctx.model.favorites_asset_pairs_stateful.unselect();
                ctx.model.favorites_asset_pairs_info_stateful.clear();
                proof {
                    assert(ctx@ =~~= (ContextV {
                        model: Self::spec_step(old(ctx)@.model, event),
                        ..old(ctx)@
                    }));
                }
                None
            },
            Event::Key { key_code: KeyCode::Char('d') } => {
                let selected = ctx.model.favorites_asset_pairs_stateful.state.selected();
                if let Some(index) = selected {
                    ctx.model.favorites_asset_pairs_stateful.unselect();
                    if index < ctx.model.favorites_asset_pairs_stateful.items.len() {
                        proof {
                            crate::list::lemma_seq_deep_remove(
                                ctx.model.favorites_asset_pairs_stateful.items@,
                                index as int,
                            );
                        }
                        ctx.model.favorites_asset_pairs_stateful.remove(index);
                    }
                    ctx.model.favorites_asset_pairs_info_stateful.clear();
                }
                proof {
                    assert(ctx@ =~~= (ContextV {
                        model: Self::spec_step(old(ctx)@.model, event),
                        ..old(ctx)@
                    }));
                }
                None
            },
            _ => {
                ctx.debug("[HomeS] on_event not match".to_owned());
                None
            },
        }
    }

    /// The model after the one-time entry hook ran, given how the connection
    /// attempt and the catalogue fetch turned out: every path leaves readable
    /// lines in the diagnostic log, and only a successful fetch replaces the
    /// asset catalogue.
    pub open spec fn spec_enter(
        m: ModelV,
        conn_ok: bool,
        fetched: Option<Seq<AssetEntryV>>,
    ) -> ModelV {
        if !conn_ok {
            log_push(m, "[HomeS] on_enter_once kraken_api error connection!!!"@)
        } else {
            let m1 = log_push(m, "[HomeS] on_enter_once kraken_api connected."@);
            match fetched {
                Some(a) => ModelV {
                    assets: a,
                    ..log_push(m1, "[HomeS] on_enter_once kraken_api list_assets."@)
                },
                None => log_push(m1, "[HomeS] on_enter_once kraken_api list_assets failed."@),
            }
        }
    }

    /// One-time entry hook: connect to the exchange and fetch the asset
    /// catalogue; on any failure, log and leave the catalogue as it was.
    pub fn on_enter_once<C: RestAPI>(&mut self, ctx: &mut Context<C>)
        requires
            old(ctx).wf(),
        ensures
            !final(self).on_enter_first,
            exists|conn_ok: bool, fetched: Option<Seq<AssetEntryV>>|
                final(ctx)@.model == #[trigger] Self::spec_enter(
                    old(ctx)@.model,
                    conn_ok,
                    fetched,
                ),
            final(ctx)@.app_id == old(ctx)@.app_id,
            final(ctx)@.app_version == old(ctx)@.app_version,
            final(ctx).wf(),
    {
        self.on_enter_first = false;
        let result = ctx.kraken_api.connect();
        match result {
            Ok(_) => {
                ctx.debug("[HomeS] on_enter_once kraken_api connected.".to_owned());
                let result = ctx.kraken_api.list_assets();
                match result {
                    Some(assets) => {
                        ctx.debug("[HomeS] on_enter_once kraken_api list_assets.".to_owned());
                        let ghost fetched = seq_deep(assets@);
                        ctx.model.assets = assets;
                        proof {
                            assert(ctx@ =~~= (ContextV {
                                model: Self::spec_enter(old(ctx)@.model, true, Some(fetched)),
                                ..old(ctx)@
                            }));
                        }
                    },
                    None => {
                        ctx.debug(
                            "[HomeS] on_enter_once kraken_api list_assets failed.".to_owned(),
                        );
                        proof {
                            assert(ctx@ =~~= (ContextV {
                                model: Self::spec_enter(
                                    old(ctx)@.model,
                                    true,
                                    None::<Seq<AssetEntryV>>,
                                ),
                                ..old(ctx)@
                            }));
                        }
                    },
                }
            },
            Err(_) => {
                ctx.debug("[HomeS] on_enter_once kraken_api error connection!!!".to_owned());
                proof {
                    assert(ctx@ =~~= (ContextV {
                        model: Self::spec_enter(old(ctx)@.model, false, None::<Seq<AssetEntryV>>),
                        ..old(ctx)@
                    }));
                }
            },
        }
    }

    /// The description the Help overlay shows for this state.
    pub fn help_text(&self) -> (r: &'static str)
        ensures
            r@ == Self::spec_help_text(),
    {
        "\n        ESC    -> back\n        UP     -> previous\n        DOWN   -> next\n        LEFT   -> previous\n        d      -> remove from favorites\n        f      -> search\n        D      -> show Debug\n        "
    }

    /// The Help overlay text of this state.
    pub open spec fn spec_help_text() -> Seq<char> {
        "\n        ESC    -> back\n        UP     -> previous\n        DOWN   -> next\n        LEFT   -> previous\n        d      -> remove from favorites\n        f      -> search\n        D      -> show Debug\n        "@
    }
}

} // verus!
