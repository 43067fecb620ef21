//! The shared model and context every view handler works on: the fetched
//! catalogues, the per-view stateful lists, the diagnostic log, and the
//! handle to the exchange-client capability.

use crate::kraken::client::{AssetEntryV, AssetPairEntryV, AssetsResponse, AssetPairsResponse};
use crate::list::{seq_deep, lemma_seq_deep_push, ListState, ListV, StatefulList};
use vstd::prelude::*;

verus! {

/// The data every view reads and writes: both catalogues and the five
/// navigable lists.
#[derive(Debug)]
pub struct Model {
    /// The fetched asset catalogue.
    pub assets: AssetsResponse,
    /// The fetched asset-pair catalogue.
    pub asset_pairs: AssetPairsResponse,
    /// The append-only diagnostic log.
    pub debug_messages_stateful: StatefulList<String>,
    /// The rows of the Search view's assets column.
    pub assets_stateful: StatefulList<String>,
    /// The rows of the Search view's filtered-pairs column.
    pub asset_pairs_stateful: StatefulList<String>,
    /// The curated favorites, referenced by pair display name.
    pub favorites_asset_pairs_stateful: StatefulList<String>,
    /// The detail lines of the selected favorite.
    pub favorites_asset_pairs_info_stateful: StatefulList<String>,
}

/// Ghost image of the [`Model`].
#[verifier::ext_equal]
pub ghost struct ModelV {
    pub assets: Seq<AssetEntryV>,
    pub asset_pairs: Seq<AssetPairEntryV>,
    pub debug_messages: ListV<Seq<char>>,
    pub assets_list: ListV<Seq<char>>,
    pub pairs_list: ListV<Seq<char>>,
    pub favorites: ListV<Seq<char>>,
    pub favorite_info: ListV<Seq<char>>,
}

impl View for Model {
    type V = ModelV;

    open spec fn view(&self) -> ModelV {
        ModelV {
            assets: seq_deep(self.assets@),
            asset_pairs: seq_deep(self.asset_pairs@),
            debug_messages: self.debug_messages_stateful@,
            assets_list: self.assets_stateful@,
            pairs_list: self.asset_pairs_stateful@,
            favorites: self.favorites_asset_pairs_stateful@,
            favorite_info: self.favorites_asset_pairs_info_stateful@,
        }
    }
}

/// The ghost image of an empty, unselected list.
pub open spec fn empty_list_v<E>() -> ListV<E> {
    ListV { items: Seq::<E>::empty(), selected: None, offset: 0 }
}

/// The model with a line appended to the diagnostic log and everything else
/// unchanged.
pub open spec fn log_push(m: ModelV, line: Seq<char>) -> ModelV {
    ModelV {
        debug_messages: ListV { items: m.debug_messages.items.push(line), ..m.debug_messages },
        ..m
    }
}

impl Model {
    /// Every list keeps its selection within bounds.
    pub open spec fn wf(&self) -> bool {
        &&& self.debug_messages_stateful.wf()
        &&& self.assets_stateful.wf()
        &&& self.asset_pairs_stateful.wf()
        &&& self.favorites_asset_pairs_stateful.wf()
        &&& self.favorites_asset_pairs_info_stateful.wf()
    }

    /// A model with empty catalogues and empty, unselected lists.
    pub fn new() -> (m: Model)
        ensures
            m@ == (ModelV {
                assets: Seq::<AssetEntryV>::empty(),
                asset_pairs: Seq::<AssetPairEntryV>::empty(),
                debug_messages: empty_list_v(),
                assets_list: empty_list_v(),
                pairs_list: empty_list_v(),
                favorites: empty_list_v(),
                favorite_info: empty_list_v(),
            }),
            m.wf(),
    {
        let m = Model {
            assets: Vec::new(),
            asset_pairs: Vec::new(),
            debug_messages_stateful: StatefulList::new(),
            assets_stateful: StatefulList::new(),
            asset_pairs_stateful: StatefulList::new(),
            favorites_asset_pairs_stateful: StatefulList::new(),
            favorites_asset_pairs_info_stateful: StatefulList::new(),
        };
        proof {
            assert(m@ =~~= (ModelV {
                assets: Seq::<AssetEntryV>::empty(),
                asset_pairs: Seq::<AssetPairEntryV>::empty(),
                debug_messages: empty_list_v(),
                assets_list: empty_list_v(),
                pairs_list: empty_list_v(),
                favorites: empty_list_v(),
                favorite_info: empty_list_v(),
            }));
        }
        m
    }
}

/// The application context: identity strings, the shared model, and the
/// exchange-client handle.
pub struct Context<C> {
    pub app_id: String,
    pub app_version: String,
    /// The shared model all views read and write.
    pub model: Model,
    /// The exchange-client capability; opaque to the verified core.
    pub kraken_api: C,
}

/// Ghost image of a [`Context`]; the client handle is opaque and carries no
/// image.
#[verifier::ext_equal]
pub ghost struct ContextV {
    pub app_id: Seq<char>,
    pub app_version: Seq<char>,
    pub model: ModelV,
}

impl<C> View for Context<C> {
    type V = ContextV;

    open spec fn view(&self) -> ContextV {
        ContextV { app_id: self.app_id@, app_version: self.app_version@, model: self.model@ }
    }
}

impl<C> Context<C> {
    /// Every list of the model keeps its selection within bounds.
    pub open spec fn wf(&self) -> bool {
        self.model.wf()
    }

    /// A fresh context around the given client handle, with an empty model.
    pub fn new(app_id: String, app_version: String, kraken_api: C) -> (ctx: Context<C>)
        ensures
            ctx@.app_id == app_id@,
            ctx@.app_version == app_version@,
            ctx@.model == (ModelV {
                assets: Seq::<AssetEntryV>::empty(),
                asset_pairs: Seq::<AssetPairEntryV>::empty(),
                debug_messages: empty_list_v(),
                assets_list: empty_list_v(),
                pairs_list: empty_list_v(),
                favorites: empty_list_v(),
                favorite_info: empty_list_v(),
            }),
            ctx.wf(),
    {
        Context { app_id, app_version, model: Model::new(), kraken_api }
    }

    /// A context with placeholder identity strings, for exercising the engine
    /// against a test client.
    pub fn new_for_testing(kraken_api: C) -> (ctx: Context<C>)
        ensures
            ctx@.app_id == "_app_id_"@,
            ctx@.app_version == "_app_version_"@,
            ctx@.model == (ModelV {
                assets: Seq::<AssetEntryV>::empty(),
                asset_pairs: Seq::<AssetPairEntryV>::empty(),
                debug_messages: empty_list_v(),
                assets_list: empty_list_v(),
                pairs_list: empty_list_v(),
                favorites: empty_list_v(),
                favorite_info: empty_list_v(),
            }),
            ctx.wf(),
    {
        Context::new("_app_id_".to_owned(), "_app_version_".to_owned(), kraken_api)
    }

    /// The identity line the application reports about itself.
    pub fn info(&self) -> (r: String)
        ensures
            r@ == "AppId:"@ + self.app_id@ + ", AppVersion:"@ + self.app_version@ + "\n"@,
    {
        let mut r = "AppId:".to_owned();
        r.append(self.app_id.as_str());
        r.append(", AppVersion:");
        r.append(self.app_version.as_str());
        r.append("\n");
        r
    }

    /// Append one line to the diagnostic log, the system's only diagnostic
    /// channel.
    pub fn debug(&mut self, message: String)
        ensures
            final(self)@ == (ContextV {
                model: log_push(old(self)@.model, message@),
                ..old(self)@
            }),
            final(self).model.assets == old(self).model.assets,
            final(self).model.asset_pairs == old(self).model.asset_pairs,
            old(self).wf() ==> final(self).wf(),
    {
        proof {
            lemma_seq_deep_push(self.model.debug_messages_stateful.items@, message);
        }
        let ghost msgv = message@;
        self.model.debug_messages_stateful.push(message);
        proof {
            assert(self@ =~~= (ContextV { model: log_push(old(self)@.model, msgv), ..old(self)@ }));
        }
    }
}

} // verus!
