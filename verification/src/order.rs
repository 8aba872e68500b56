//! The registration order: which plugins the group stands for, in which
//! order, and what holds of that order whatever the engine features are.

use vstd::prelude::*;
use crate::kind::{EngineFeatures, PluginKind};

verus! {

/// The plugins that every build of the engine has, in registration order.
pub open spec fn base_plugins() -> Seq<PluginKind> {
    seq![
        PluginKind::Core,
        PluginKind::Transform,
        PluginKind::Diagnostics,
        PluginKind::Input,
        PluginKind::Window,
        PluginKind::Asset,
        PluginKind::Scene,
    ]
}

/// The plugins that depend on an engine feature, in registration order.
pub open spec fn optional_order() -> Seq<PluginKind> {
    seq![
        PluginKind::Render,
        PluginKind::Sprite,
        PluginKind::Pbr,
        PluginKind::Ui,
        PluginKind::Text,
        PluginKind::Audio,
        PluginKind::Gilrs,
        PluginKind::Gltf,
        PluginKind::Winit,
        PluginKind::Wgpu,
    ]
}

/// The test that keeps the plugins which `features` call for.
pub open spec fn enabled_by(features: EngineFeatures) -> spec_fn(PluginKind) -> bool {
    |kind: PluginKind| features.enables(kind)
}

/// The optional plugins that `features` switch on: `optional_order` without
/// the plugins whose feature is off.
pub open spec fn optional_plugins(features: EngineFeatures) -> Seq<PluginKind> {
    optional_order().filter(enabled_by(features))
}

/// Everything the group stands for under `features`: the base plugins, then
/// the optional ones that are switched on.
pub open spec fn plugin_order(features: EngineFeatures) -> Seq<PluginKind> {
    base_plugins() + optional_plugins(features)
}

/// The list entries that a builder holds for the plugins `kinds`.
pub open spec fn entries(kinds: Seq<PluginKind>) -> Seq<Option<PluginKind>> {
    Seq::new(kinds.len(), |i: int| Some(kinds[i]))
}

/// The flags of a builder after the base plugins were added to one with the
/// entries `list` and the flags `flags`: the seven new entries are enabled,
/// and so is every earlier entry of a base plugin; the other flags stay.
pub open spec fn flags_after_base(list: Seq<Option<PluginKind>>, flags: Seq<bool>) -> Seq<bool> {
    Seq::new(
        list.len() + 7,
        |i: int|
            i >= list.len() || flags[i] || (list[i] matches Some(kind) && kind.is_base()),
    )
}

/// Whether the plugins of `order` stand in strictly rising rank. Such an
/// order holds no plugin twice.
pub open spec fn rising(order: Seq<PluginKind>) -> bool {
    forall|i: int, j: int|
        0 <= i < j < order.len() ==> #[trigger] order[i].rank() < #[trigger] order[j].rank()
}

/// Filtering keeps a rising order rising.
proof fn lemma_filter_rising(order: Seq<PluginKind>, keep: spec_fn(PluginKind) -> bool)
    requires
        rising(order),
    ensures
        rising(order.filter(keep)),
    decreases order.len(),
{
    reveal(Seq::filter);
    if order.len() > 0 {
        let front = order.drop_last();
        let kept = front.filter(keep);
        lemma_filter_rising(front, keep);
        if keep(order.last()) {
            let out = kept.push(order.last());
            assert forall|i: int, j: int| 0 <= i < j < out.len() implies #[trigger] out[i].rank()
                < #[trigger] out[j].rank() by {
                if j == kept.len() {
                    assert(kept.contains(kept[i]));
                    front.lemma_filter_contains_rev(keep, kept[i]);
                    let k = choose|k: int| 0 <= k < front.len() && front[k] == kept[i];
                    assert(order[k].rank() < order[order.len() - 1].rank());
                } else {
                    assert(kept[i].rank() < kept[j].rank());
                }
            }
        }
    }
}

/// An optional plugin is listed exactly when its feature is on; a base
/// plugin is never among the optional ones.
pub proof fn lemma_optional_plugins_contains(features: EngineFeatures, kind: PluginKind)
    ensures
        optional_plugins(features).contains(kind) <==> !kind.is_base() && features.enables(kind),
{
    let all = optional_order();
    let keep = enabled_by(features);
    if all.filter(keep).contains(kind) {
        all.lemma_filter_contains_rev(keep, kind);
        let i = choose|i: int| 0 <= i < all.filter(keep).len() && all.filter(keep)[i] == kind;
        all.lemma_filter_pred(keep, i);
    }
    if !kind.is_base() && features.enables(kind) {
        let i = kind.rank() - 7;
        assert(all[i] == kind);
        all.lemma_filter_contains(keep, i);
    }
}

/// The group stands for a plugin exactly when the features call for it: for
/// every base plugin, and for each optional plugin whose feature is on.
pub proof fn lemma_plugin_order_contains(features: EngineFeatures, kind: PluginKind)
    ensures
        plugin_order(features).contains(kind) <==> features.enables(kind),
{
    let base = base_plugins();
    let optional = optional_plugins(features);
    lemma_optional_plugins_contains(features, kind);
    if kind.is_base() {
        assert(base[kind.rank() as int] == kind);
        assert((base + optional)[kind.rank() as int] == kind);
    }
    if optional.contains(kind) {
        let i = choose|i: int| 0 <= i < optional.len() && optional[i] == kind;
        assert((base + optional)[base.len() + i] == kind);
    }
    if (base + optional).contains(kind) {
        let i = choose|i: int| 0 <= i < (base + optional).len() && (base + optional)[i] == kind;
        if i < base.len() {
            assert(base[i] == kind);
        } else {
            assert(optional[i - base.len()] == kind);
            assert(optional.contains(kind));
        }
    }
}

/// Whatever the features, the plugins come in strictly rising rank: the
/// base plugins first, every plugin at most once, and the optional ones in
/// the order in which `optional_order` names them.
pub proof fn lemma_plugin_order_rising(features: EngineFeatures)
    ensures
        rising(optional_plugins(features)),
        rising(plugin_order(features)),
        plugin_order(features).no_duplicates(),
{
    let base = base_plugins();
    let optional = optional_plugins(features);
    let all = base + optional;
    assert(rising(optional_order()));
    lemma_filter_rising(optional_order(), enabled_by(features));
    assert forall|i: int, j: int| 0 <= i < j < all.len() implies #[trigger] all[i].rank()
        < #[trigger] all[j].rank() by {
        if j < base.len() {
            assert(base[i].rank() < base[j].rank());
        } else {
            let late = optional[j - base.len()];
            assert(optional.contains(late));
            lemma_optional_plugins_contains(features, late);
            if i < base.len() {
                assert(base[i].rank() < 7 <= late.rank());
            } else {
                assert(optional[i - base.len()].rank() < late.rank());
            }
        }
    }
    assert forall|i: int, j: int| 0 <= i < all.len() && 0 <= j < all.len() && i != j implies all[i]
        != all[j] by {
        if i < j {
            assert(all[i].rank() < all[j].rank());
        } else {
            assert(all[j].rank() < all[i].rank());
        }
    }
}

/// A group that takes the base plugins and then the optional ones that
/// `features` switch on holds, after what it held before, the whole of
/// `plugin_order(features)`.
pub proof fn lemma_registration_order(held: Seq<PluginKind>, features: EngineFeatures)
    ensures
        (held + base_plugins()) + optional_plugins(features) == held + plugin_order(features),
{
    assert((held + base_plugins()) + optional_plugins(features) =~= held + plugin_order(features));
}

/// As many optional plugins are listed as features are on, so that the
/// group stands for seven plugins and one more for each such feature.
pub proof fn lemma_plugin_order_len(features: EngineFeatures)
    ensures
        optional_plugins(features).len() == features.count(),
        plugin_order(features).len() == 7 + features.count(),
{
    let keep = enabled_by(features);
    let s0 = Seq::<PluginKind>::empty();
    let s1 = s0.push(PluginKind::Render);
    let s2 = s1.push(PluginKind::Sprite);
    let s3 = s2.push(PluginKind::Pbr);
    let s4 = s3.push(PluginKind::Ui);
    let s5 = s4.push(PluginKind::Text);
    let s6 = s5.push(PluginKind::Audio);
    let s7 = s6.push(PluginKind::Gilrs);
    let s8 = s7.push(PluginKind::Gltf);
    let s9 = s8.push(PluginKind::Winit);
    let s10 = s9.push(PluginKind::Wgpu);
    assert(s0.filter(keep).len() == 0) by {
        s0.lemma_filter_len(keep);
    }
    s0.lemma_filter_push(PluginKind::Render, keep);
    s1.lemma_filter_push(PluginKind::Sprite, keep);
    s2.lemma_filter_push(PluginKind::Pbr, keep);
    s3.lemma_filter_push(PluginKind::Ui, keep);
    s4.lemma_filter_push(PluginKind::Text, keep);
    s5.lemma_filter_push(PluginKind::Audio, keep);
    s6.lemma_filter_push(PluginKind::Gilrs, keep);
    s7.lemma_filter_push(PluginKind::Gltf, keep);
    s8.lemma_filter_push(PluginKind::Winit, keep);
    s9.lemma_filter_push(PluginKind::Wgpu, keep);
    assert(s10 =~= optional_order());
}

/// With every feature off no optional plugin is listed; with every feature
/// on all of them are, in the order of `optional_order`.
pub proof fn lemma_optional_plugins_ends(features: EngineFeatures)
    ensures
        (forall|kind: PluginKind| !kind.is_base() ==> !features.enables(kind))
            ==> optional_plugins(features) == Seq::<PluginKind>::empty(),
        (forall|kind: PluginKind| features.enables(kind))
            ==> optional_plugins(features) == optional_order(),
{
    let all = optional_order();
    let keep = enabled_by(features);
    if forall|kind: PluginKind| !kind.is_base() ==> !features.enables(kind) {
        if all.filter(keep).len() > 0 {
            let first = all.filter(keep)[0];
            assert(all.filter(keep).contains(first));
            lemma_optional_plugins_contains(features, first);
        }
        assert(all.filter(keep) =~= Seq::<PluginKind>::empty());
    }
    if forall|kind: PluginKind| features.enables(kind) {
        lemma_filter_keeps_all(all, keep);
    }
}

/// A filter that every item of the order passes changes nothing.
proof fn lemma_filter_keeps_all(order: Seq<PluginKind>, keep: spec_fn(PluginKind) -> bool)
    requires
        forall|i: int| 0 <= i < order.len() ==> keep(#[trigger] order[i]),
    ensures
        order.filter(keep) == order,
    decreases order.len(),
{
    reveal(Seq::filter);
    if order.len() > 0 {
        let front = order.drop_last();
        assert forall|i: int| 0 <= i < front.len() implies keep(#[trigger] front[i]) by {
            assert(front[i] == order[i]);
        }
        lemma_filter_keeps_all(front, keep);
        assert(front.push(order.last()) =~= order);
    }
}

} // verus!
