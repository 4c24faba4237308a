//! The network configuration: three weight matrices of fixed shape plus the
//! count of completed training epochs, and the decisions the classifier
//! takes on numeric results.
//!
//! Weight entries are kept as the raw 64-bit patterns of the host's
//! floating-point values, so the configuration pins shapes, atomic epoch
//! fold-back and restore decisions down to proved contracts while the
//! arithmetic on the entries stays with the caller. Scores handed to the
//! classification decision are bit patterns of non-negative floating-point
//! values, whose unsigned order equals the numeric one.

use vstd::prelude::*;
use crate::label::lemma_index_decode_inverse;
use crate::label::MBTI;
use crate::IMAGE_SIZE;

verus! {

/// Width of the first hidden layer.
pub const FIRST_HIDDEN_LAYER_SIZE: usize = 128;

/// Width of the second hidden layer.
pub const SECOND_HIDDEN_LAYER_SIZE: usize = 64;

/// Width of the output layer: one unit per label.
pub const OUTPUT_LAYER_SIZE: usize = 16;

/// Number of weight matrices in the fixed feed-forward architecture.
pub const LAYER_COUNT: usize = 3;

/// The error reported when weights handed to the configuration do not have
/// the fixed three-layer shape. Restoring from such data is fatal, never a
/// silent fallback.
#[derive(Clone, Copy, Debug, PartialEq, Eq, Structural)]
pub struct ShapeError;

/// One weight matrix: its shape and its entries in row-major order, each
/// entry the bit pattern of one floating-point weight.
pub struct LayerWeights {
    /// Number of rows: one per input neuron of the layer.
    pub rows: usize,
    /// Number of columns: one per output neuron of the layer.
    pub cols: usize,
    /// The entries, row-major; `bits[r * cols + c]` is the weight at `(r, c)`.
    pub bits: Vec<u64>,
}

impl LayerWeights {
    /// The matrix holds exactly one entry per cell of its shape.
    pub open spec fn wf(self) -> bool {
        self.bits@.len() == self.rows as int * self.cols as int
    }
}

/// The expected shape of layer `l`: each matrix maps the activations of one
/// layer to the inputs of the next.
pub open spec fn spec_layer_shape(l: int) -> (int, int) {
    if l == 0 {
        (IMAGE_SIZE as int, FIRST_HIDDEN_LAYER_SIZE as int)
    } else if l == 1 {
        (FIRST_HIDDEN_LAYER_SIZE as int, SECOND_HIDDEN_LAYER_SIZE as int)
    } else {
        (SECOND_HIDDEN_LAYER_SIZE as int, OUTPUT_LAYER_SIZE as int)
    }
}

/// Weight matrices fit the fixed architecture: three layers, each of the
/// expected shape, each well-formed.
pub open spec fn spec_weights_valid(w: Seq<LayerWeights>) -> bool {
    &&& w.len() == LAYER_COUNT
    &&& forall|l: int|
        0 <= l < LAYER_COUNT ==> {
            &&& (#[trigger] w[l]).wf()
            &&& w[l].rows == spec_layer_shape(l).0
            &&& w[l].cols == spec_layer_shape(l).1
        }
}

/// The persisted state of the classifier: the three weight matrices and the
/// number of completed training epochs.
pub struct NeuralNetwork {
    weights: Vec<LayerWeights>,
    epochs: i32,
}

impl NeuralNetwork {
    /// The configuration's weights.
    pub closed spec fn spec_weights(self) -> Seq<LayerWeights> {
        self.weights@
    }

    /// The configuration's epoch counter.
    pub closed spec fn spec_epochs(self) -> i32 {
        self.epochs
    }

    /// The configuration always carries the fixed three-layer architecture.
    pub open spec fn wf(self) -> bool {
        spec_weights_valid(self.spec_weights())
    }

    /// Builds a configuration from explicit weights and an epoch count, as a
    /// restore from persisted data does. Succeeds if and only if the weights
    /// have the fixed three-layer shape; anything else is an error, never a
    /// partially-restored configuration.
    pub fn with_weights(weights: Vec<LayerWeights>, epochs: i32) -> (r: Result<
        NeuralNetwork,
        ShapeError,
    >)
        ensures
            spec_weights_valid(weights@) ==> (r matches Ok(n) && n.spec_weights() == weights@
                && n.spec_epochs() == epochs && n.wf()),
            !spec_weights_valid(weights@) ==> (r matches Err(e) && e == ShapeError),
    {
        if weights.len() != LAYER_COUNT {
            return Err(ShapeError);
        }
        let mut l: usize = 0;
        while l < LAYER_COUNT
            invariant
                weights@.len() == LAYER_COUNT,
                l <= LAYER_COUNT,
                forall|m: int|
                    0 <= m < l ==> {
                        &&& (#[trigger] weights@[m]).wf()
                        &&& weights@[m].rows == spec_layer_shape(m).0
                        &&& weights@[m].cols == spec_layer_shape(m).1
                    },
            decreases LAYER_COUNT - l,
        {
            let (rows, cols) = if l == 0 {
                (IMAGE_SIZE, FIRST_HIDDEN_LAYER_SIZE)
            } else if l == 1 {
                (FIRST_HIDDEN_LAYER_SIZE, SECOND_HIDDEN_LAYER_SIZE)
            } else {
                (SECOND_HIDDEN_LAYER_SIZE, OUTPUT_LAYER_SIZE)
            };
            let layer = &weights[l];
            if layer.rows != rows || layer.cols != cols || layer.bits.len() != rows * cols {
                return Err(ShapeError);
            }
            l = l + 1;
        }
        Ok(NeuralNetwork { weights, epochs })
    }

    /// Number of weight matrices in the architecture.
    pub fn layers(&self) -> (count: usize)
        ensures
            count == self.spec_weights().len(),
    {
        self.weights.len()
    }

    /// Number of training epochs this configuration has completed.
    pub fn epochs(&self) -> (count: i32)
        ensures
            count == self.spec_epochs(),
    {
        self.epochs
    }

    /// The weight matrix of layer `l`.
    pub fn layer(&self, l: usize) -> (layer: &LayerWeights)
        requires
            l < self.spec_weights().len(),
        ensures
            *layer == self.spec_weights()[l as int],
    {
        &self.weights[l]
    }

    /// Folds the weights learned in one completed training epoch back into
    /// the configuration, atomically: the new weights replace the old ones
    /// in full and the epoch counter rises by exactly one, so no
    /// partially-updated state is ever observable.
    pub fn finish_epoch(&mut self, learned: Vec<LayerWeights>)
        requires
            old(self).wf(),
            spec_weights_valid(learned@),
            old(self).spec_epochs() < i32::MAX,
        ensures
            final(self).wf(),
            final(self).spec_weights() == learned@,
            final(self).spec_epochs() == old(self).spec_epochs() + 1,
    {
        self.weights = learned;
        self.epochs = self.epochs + 1;
    }

    /// Picks the configuration to start from: the restored one exactly when
    /// restoring yielded a configuration with a positive epoch count,
    /// otherwise the freshly initialized one.
    pub open spec fn spec_choose_initial(
        restored: Option<NeuralNetwork>,
        fresh: NeuralNetwork,
    ) -> NeuralNetwork {
        match restored {
            Some(n) => if n.spec_epochs() > 0 {
                n
            } else {
                fresh
            },
            None => fresh,
        }
    }

    /// Decides between a configuration restored from persisted weights and a
    /// freshly initialized one: persisted weights count only once they have
    /// completed at least one epoch; otherwise training starts fresh.
    pub fn choose_initial(restored: Option<NeuralNetwork>, fresh: NeuralNetwork) -> (chosen:
        NeuralNetwork)
        requires
            fresh.wf(),
            restored matches Some(n) ==> n.wf(),
        ensures
            chosen == NeuralNetwork::spec_choose_initial(restored, fresh),
            chosen.wf(),
    {
        match restored {
            Some(n) => if n.epochs() > 0 {
                n
            } else {
                fresh
            },
            None => fresh,
        }
    }
}

/// The epoch counter never falls across a restore: starting from a
/// serialized configuration with a positive epoch count keeps that count
/// exactly, and each completed epoch adds exactly one (the contract of
/// `finish_epoch`), so the counter is monotonically non-decreasing across
/// train-serialize-restore cycles.
pub proof fn lemma_restore_keeps_epochs(restored: NeuralNetwork, fresh: NeuralNetwork)
    requires
        restored.spec_epochs() > 0,
    ensures
        NeuralNetwork::spec_choose_initial(Some(restored), fresh).spec_epochs()
            == restored.spec_epochs(),
{
}

/// Position `i` holds a maximal score and every earlier position holds a
/// strictly smaller one: `i` is where the arg-max with first-occurrence
/// tie-breaking lands.
pub open spec fn is_first_max(scores: Seq<u64>, i: int) -> bool {
    &&& 0 <= i < scores.len()
    &&& forall|j: int| 0 <= j < scores.len() ==> scores[j] <= scores[i]
    &&& forall|j: int| 0 <= j < i ==> scores[j] < scores[i]
}

/// The arg-max position is unique: classification is a function of the
/// scores alone, so repeated classification of the same scores returns the
/// same label.
pub proof fn lemma_first_max_unique(scores: Seq<u64>, i: int, j: int)
    requires
        is_first_max(scores, i),
        is_first_max(scores, j),
    ensures
        i == j,
{
    if i < j {
        assert(scores[i] < scores[j]);
        assert(scores[j] <= scores[i]);
    } else if j < i {
        assert(scores[j] < scores[i]);
        assert(scores[i] <= scores[j]);
    }
}

/// Classification is deterministic: two labels read off the same scores
/// are the same label, because the arg-max position is unique and the dense
/// index pins the label.
pub proof fn lemma_classification_deterministic(scores: Seq<u64>, l1: MBTI, l2: MBTI)
    requires
        is_first_max(scores, l1.spec_index() as int),
        is_first_max(scores, l2.spec_index() as int),
    ensures
        l1 == l2,
{
    lemma_first_max_unique(scores, l1.spec_index() as int, l2.spec_index() as int);
    crate::label::lemma_index_round_trip(l1);
    crate::label::lemma_index_round_trip(l2);
}

/// The label read off one output-layer evaluation: the label whose dense
/// index holds the largest of the 16 scores, ties broken by the first
/// occurrence in index order. Scores arrive as bit patterns of non-negative
/// floating-point values, which compare identically as unsigned integers.
pub fn label_for_scores(scores: &Vec<u64>) -> (label: MBTI)
    requires
        scores@.len() == OUTPUT_LAYER_SIZE,
    ensures
        is_first_max(scores@, label.spec_index() as int),
{
    let mut best: usize = 0;
    let mut i: usize = 1;
    while i < scores.len()
        invariant
            scores@.len() == OUTPUT_LAYER_SIZE,
            best < i <= scores@.len(),
            forall|j: int| 0 <= j < i ==> scores@[j] <= scores@[best as int],
            forall|j: int| 0 <= j < best ==> scores@[j] < scores@[best as int],
        decreases scores@.len() - i,
    {
        if scores[i] > scores[best] {
            best = i;
        }
        i = i + 1;
    }
    proof {
        lemma_index_decode_inverse(best);
    }
    match MBTI::from_index(best) {
        Ok(label) => label,
        Err(_) => {
            proof {
                assert(false);
            }
            MBTI::ENFP
        },
    }
}

/// Number of positions where the predicted label equals the true one.
pub open spec fn spec_count_correct(predicted: Seq<MBTI>, truth: Seq<MBTI>) -> nat
    decreases predicted.len(),
{
    if predicted.len() == 0 || truth.len() == 0 {
        0
    } else {
        spec_count_correct(predicted.drop_last(), truth.drop_last()) + if predicted.last()
            == truth.last() {
            1nat
        } else {
            0nat
        }
    }
}

/// At most every position can be correct, so an accuracy fraction built
/// from this count always lies in the unit interval.
pub proof fn lemma_count_correct_bounded(predicted: Seq<MBTI>, truth: Seq<MBTI>)
    requires
        predicted.len() == truth.len(),
    ensures
        spec_count_correct(predicted, truth) <= predicted.len(),
    decreases predicted.len(),
{
    if predicted.len() > 0 {
        lemma_count_correct_bounded(predicted.drop_last(), truth.drop_last());
    }
}

/// Counts the samples a prediction run got right: the numerator of the
/// accuracy fraction, whose denominator is the dataset size.
pub fn count_correct(predicted: &Vec<MBTI>, truth: &Vec<MBTI>) -> (correct: usize)
    requires
        predicted@.len() == truth@.len(),
    ensures
        correct == spec_count_correct(predicted@, truth@),
        correct <= predicted@.len(),
{
    proof {
        lemma_count_correct_bounded(predicted@, truth@);
    }
    let mut correct: usize = 0;
    let mut i: usize = 0;
    while i < predicted.len()
        invariant
            predicted@.len() == truth@.len(),
            i <= predicted@.len(),
            correct == spec_count_correct(predicted@.subrange(0, i as int), truth@.subrange(0, i as int)),
            correct <= i,
        decreases predicted@.len() - i,
    {
        proof {
            assert(predicted@.subrange(0, i + 1).drop_last() =~= predicted@.subrange(0, i as int));
            assert(truth@.subrange(0, i + 1).drop_last() =~= truth@.subrange(0, i as int));
        }
        if predicted[i] == truth[i] {
            correct = correct + 1;
        }
        i = i + 1;
    }
    proof {
        assert(predicted@.subrange(0, predicted@.len() as int) =~= predicted@);
        assert(truth@.subrange(0, truth@.len() as int) =~= truth@);
    }
    correct
}

} // verus!
