//! The layers of the blurred background: AppKit's tint and saturation are taken out of them.

use vstd::prelude::*;

use crate::strings::same_text;

verus! {

/// A layer with what is below it.
pub struct Layer {
    pub id: u64,
    pub class_name: String,
    /// For each filter of the layer, whether its description speaks of saturation.
    pub filters: Option<Vec<bool>>,
    pub sublayers: Option<Vec<Layer>>,
}

/// A change of a layer.
#[derive(Clone, Copy, Debug, PartialEq, Eq, Structural)]
pub enum LayerEdit {
    ClearBackground { layer: u64 },
    Hide { layer: u64 },
    /// Takes the filter with this index away.
    RemoveFilter { layer: u64, index: usize },
}

/// Whether the layer tints the background with the colours of the desktop.
pub open spec fn is_tint(layer: Layer) -> bool {
    layer.class_name@ == "CAChameleonLayer"@
}

/// The index of the first filter from `from` on that raises the saturation.
pub open spec fn first_saturation(filters: Seq<bool>, from: int) -> Option<int>
    decreases filters.len() - from,
{
    if from >= filters.len() {
        None
    } else if filters[from] {
        Some(from)
    } else {
        first_saturation(filters, from + 1)
    }
}

/// The edit of the filters of a layer, if it has one to take away.
pub open spec fn filter_edits(layer: Layer) -> Seq<LayerEdit> {
    match layer.filters {
        Some(filters) => match first_saturation(filters@, 0) {
            Some(index) => seq![LayerEdit::RemoveFilter { layer: layer.id, index: index as usize }],
            None => Seq::empty(),
        },
        None => Seq::empty(),
    }
}

/// The edits that take the background out of a layer and of what is below it. A layer that tints
/// is hidden with all that is below it.
pub open spec fn edits_of(layer: Layer) -> Seq<LayerEdit>
    decreases layer,
{
    let cleared = seq![LayerEdit::ClearBackground { layer: layer.id }];
    if is_tint(layer) {
        cleared.push(LayerEdit::Hide { layer: layer.id })
    } else {
        cleared + filter_edits(layer) + match layer.sublayers {
            Some(sublayers) => edits_of_all(sublayers@),
            None => Seq::empty(),
        }
    }
}

/// The edits for several layers, one after the other.
pub open spec fn edits_of_all(layers: Seq<Layer>) -> Seq<LayerEdit>
    decreases layers,
{
    if layers.len() == 0 {
        Seq::empty()
    } else {
        edits_of_all(layers.drop_last()) + edits_of(layers.last())
    }
}

/// Lists the edits that take the background out of a layer; see [`edits_of`].
pub fn remove_layer_background(layer: &Layer) -> (edits: Vec<LayerEdit>)
    ensures
        edits@ == edits_of(*layer),
    decreases *layer,
{
    let mut edits: Vec<LayerEdit> = Vec::new();
    edits.push(LayerEdit::ClearBackground { layer: layer.id });
    if same_text(layer.class_name.as_str(), "CAChameleonLayer") {
        edits.push(LayerEdit::Hide { layer: layer.id });
        assert(edits@ =~= edits_of(*layer));
        return edits;
    }
    if let Some(filters) = &layer.filters {
        let mut i: usize = 0;
        while i < filters.len()
            invariant_except_break
                first_saturation(filters@, 0) == first_saturation(filters@, i as int),
                edits@ =~= seq![LayerEdit::ClearBackground { layer: layer.id }],
            invariant
                layer.filters == Some(*filters),
                i <= filters@.len(),
            ensures
                edits@ =~= seq![LayerEdit::ClearBackground { layer: layer.id }] + filter_edits(
                    *layer,
                ),
            decreases filters@.len() - i,
        {
            if filters[i] {
                edits.push(LayerEdit::RemoveFilter { layer: layer.id, index: i });
                break;
            }
            i += 1;
        }
    }
    let ghost own = seq![LayerEdit::ClearBackground { layer: layer.id }] + filter_edits(*layer);
    assert(edits@ =~= own);
    if let Some(sublayers) = &layer.sublayers {
        let mut i: usize = 0;
        while i < sublayers.len()
            invariant
                layer.sublayers == Some(*sublayers),
                i <= sublayers@.len(),
                edits@ =~= own + edits_of_all(sublayers@.take(i as int)),
            decreases sublayers@.len() - i,
        {
            let sublayer = &sublayers[i];
            assert(decreases_to!(*layer => layer.sublayers->0@[i as int]));
            let mut below: Vec<LayerEdit> = remove_layer_background(sublayer);
            edits.append(&mut below);
            assert(sublayers@.take(i + 1).drop_last() =~= sublayers@.take(i as int));
            i += 1;
        }
        assert(sublayers@.take(i as int) =~= sublayers@);
    }
    edits
}

/// The first thing done to a layer is to clear its background, a layer that tints is hidden, and
/// at most one filter of a layer goes, the first that raises the saturation.
pub proof fn layer_edits_begin_with_the_layer(layer: Layer)
    ensures
        edits_of(layer).len() >= 1,
        edits_of(layer)[0] == (LayerEdit::ClearBackground { layer: layer.id }),
        is_tint(layer) ==> edits_of(layer) == seq![
            LayerEdit::ClearBackground { layer: layer.id },
            LayerEdit::Hide { layer: layer.id },
        ],
        filter_edits(layer).len() <= 1,
        layer.filters matches Some(filters) ==> (filter_edits(layer).len() == 1
            <==> filters@.contains(true)),
{
    if let Some(filters) = layer.filters {
        lemma_first_saturation(filters@, 0);
        if filters@.contains(true) {
            let i = choose|i: int| 0 <= i < filters@.len() && filters@[i] == true;
            assert(filters@[i]);
        }
    }
    assert(is_tint(layer) ==> edits_of(layer) =~= seq![
        LayerEdit::ClearBackground { layer: layer.id },
        LayerEdit::Hide { layer: layer.id },
    ]);
}

/// Whether the layer with the given number is reached from `layer`: it is the layer itself, or
/// below it and below no layer that tints.
pub open spec fn reaches(layer: Layer, id: u64) -> bool
    decreases layer,
{
    layer.id == id || (!is_tint(layer) && match layer.sublayers {
        Some(sublayers) => reaches_any(sublayers@, id),
        None => false,
    })
}

/// Whether the layer with the given number is reached from one of `layers`.
pub open spec fn reaches_any(layers: Seq<Layer>, id: u64) -> bool
    decreases layers,
{
    layers.len() > 0 && (reaches_any(layers.drop_last(), id) || reaches(layers.last(), id))
}

/// No layer that can be seen keeps its background.
pub proof fn every_reached_layer_is_cleared(layer: Layer, id: u64)
    requires
        reaches(layer, id),
    ensures
        edits_of(layer).contains(LayerEdit::ClearBackground { layer: id }),
    decreases layer,
{
    let edits = edits_of(layer);
    if layer.id == id {
        assert(edits[0] == LayerEdit::ClearBackground { layer: id });
    } else {
        let sublayers = layer.sublayers->0@;
        let own = seq![LayerEdit::ClearBackground { layer: layer.id }] + filter_edits(layer);
        lemma_reached_sublayers_are_cleared(sublayers, id);
        lemma_contains_right(own, edits_of_all(sublayers), LayerEdit::ClearBackground { layer: id });
        assert(edits =~= own + edits_of_all(sublayers));
    }
}

proof fn lemma_reached_sublayers_are_cleared(layers: Seq<Layer>, id: u64)
    requires
        reaches_any(layers, id),
    ensures
        edits_of_all(layers).contains(LayerEdit::ClearBackground { layer: id }),
    decreases layers,
{
    let edit = LayerEdit::ClearBackground { layer: id };
    let before = edits_of_all(layers.drop_last());
    let last = edits_of(layers.last());
    if reaches_any(layers.drop_last(), id) {
        lemma_reached_sublayers_are_cleared(layers.drop_last(), id);
        let k = choose|k: int| 0 <= k < before.len() && before[k] == edit;
        assert((before + last)[k] == edit);
    } else {
        every_reached_layer_is_cleared(layers.last(), id);
        lemma_contains_right(before, last, edit);
    }
}

proof fn lemma_contains_right(left: Seq<LayerEdit>, right: Seq<LayerEdit>, edit: LayerEdit)
    requires
        right.contains(edit),
    ensures
        (left + right).contains(edit),
{
    let k = choose|k: int| 0 <= k < right.len() && right[k] == edit;
    assert((left + right)[left.len() + k] == edit);
}

proof fn lemma_first_saturation(filters: Seq<bool>, from: int)
    requires
        0 <= from <= filters.len(),
    ensures
        match first_saturation(filters, from) {
            Some(i) => from <= i < filters.len() && filters[i] && forall|j: int|
                from <= j < i ==> !filters[j],
            None => forall|j: int| from <= j < filters.len() ==> !filters[j],
        },
    decreases filters.len() - from,
{
    if from < filters.len() && !filters[from] {
        lemma_first_saturation(filters, from + 1);
    }
}

/// A layer that tints with the colours of the desktop is hidden, and nothing below it is touched.
/// Of any other layer the first filter that raises the saturation goes, if there is one, and what
/// is below it is treated likewise.
pub proof fn layers_lose_tint_and_saturation(layer: Layer)
    ensures
        layer.class_name@ == "CAChameleonLayer"@ ==> edits_of(layer) == seq![
            LayerEdit::ClearBackground { layer: layer.id },
            LayerEdit::Hide { layer: layer.id },
        ],
        layer.class_name@ != "CAChameleonLayer"@ ==> {
            let own = match layer.filters {
                Some(filters) => if filters@.contains(true) {
                    2int
                } else {
                    1int
                },
                None => 1int,
            };
            let edits = edits_of(layer);
            &&& edits.len() >= own
            &&& edits[0] == (LayerEdit::ClearBackground { layer: layer.id })
            &&& own == 2 ==> {
                let filters = layer.filters->0@;
                &&& edits[1] is RemoveFilter && edits[1]->RemoveFilter_layer == layer.id
                &&& edits[1]->index < filters.len() && filters[edits[1]->index as int]
                &&& forall|j: int| 0 <= j < edits[1]->index ==> !(#[trigger] filters[j])
            }
            &&& edits.skip(own) == match layer.sublayers {
                Some(sublayers) => edits_of_all(sublayers@),
                None => Seq::empty(),
            }
        },
{
    if layer.class_name@ == "CAChameleonLayer"@ {
        assert(edits_of(layer) =~= seq![
            LayerEdit::ClearBackground { layer: layer.id },
            LayerEdit::Hide { layer: layer.id },
        ]);
    } else {
        let below = match layer.sublayers {
            Some(sublayers) => edits_of_all(sublayers@),
            None => Seq::empty(),
        };
        let own = seq![LayerEdit::ClearBackground { layer: layer.id }] + filter_edits(layer);
        assert(edits_of(layer) =~= own + below);
        assert(edits_of(layer).skip(own.len() as int) =~= below);
        if let Some(filters) = layer.filters {
            lemma_first_saturation(filters@, 0);
            assert(filters@.len() == filters.len());
            if filters@.contains(true) {
                let i = choose|i: int| 0 <= i < filters@.len() && filters@[i] == true;
                assert(filters@[i]);
                assert(own.len() == 2);
                assert(edits_of(layer)[1] == own[1]);
            } else {
                assert(own.len() == 1);
            }
        }
    }
}

/// Several layers are treated one after the other, each as if it was alone.
pub proof fn layers_are_treated_in_order(front: Seq<Layer>, back: Seq<Layer>, layer: Layer)
    ensures
        edits_of_all(front + back) == edits_of_all(front) + edits_of_all(back),
        edits_of_all(seq![layer]) == edits_of(layer),
        edits_of_all(Seq::empty()) == Seq::<LayerEdit>::empty(),
    decreases back.len(),
{
    reveal_with_fuel(edits_of_all, 2);
    assert(seq![layer].drop_last() =~= Seq::<Layer>::empty());
    assert(edits_of_all(seq![layer]) =~= edits_of(layer));
    if back.len() == 0 {
        assert(front + back =~= front);
        assert(edits_of_all(front) + edits_of_all(back) =~= edits_of_all(front));
    } else {
        layers_are_treated_in_order(front, back.drop_last(), layer);
        assert((front + back).drop_last() =~= front + back.drop_last());
        assert(edits_of_all(front + back) =~= edits_of_all(front) + edits_of_all(back));
    }
}

} // verus!
