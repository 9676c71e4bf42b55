//! The layout of a job's input and of the tensor the model is fed with.
use vstd::prelude::*;

verus! {

/// Height of an input image, in pixels.
pub const IMAGE_HEIGHT: usize = 224;

/// Width of an input image, in pixels.
pub const IMAGE_WIDTH: usize = 224;

/// Colour channels of an input image.
pub const CHANNELS: usize = 3;

/// Samples in one job's input: height × width × channels.
pub const INPUT_LEN: usize = 150528;


/// The dimensions `dims` rearranged by `order`: position `i` takes dimension
/// `order[i]`.
pub open spec fn permuted(dims: Seq<i64>, order: Seq<i64>) -> Seq<i64> {
    Seq::new(order.len(), |i: int| dims[order[i] as int])
}

/// `order` names each of the `n` dimensions exactly once.
pub open spec fn is_permutation(order: Seq<i64>, n: nat) -> bool {
    &&& order.len() == n
    &&& forall|i: int| 0 <= i < n ==> 0 <= #[trigger] order[i] < n
    &&& forall|i: int, j: int| 0 <= i < j < n ==> order[i] != order[j]
}

/// The shape of an input as it is stored: height, width, channel.
pub fn sample_dims() -> (r: Vec<i64>)
    ensures
        r@ == seq![IMAGE_HEIGHT as i64, IMAGE_WIDTH as i64, CHANNELS as i64],
{
    let r = vec![IMAGE_HEIGHT as i64, IMAGE_WIDTH as i64, CHANNELS as i64];
    assert(r@ =~= seq![IMAGE_HEIGHT as i64, IMAGE_WIDTH as i64, CHANNELS as i64]);
    r
}

/// The rearrangement from height, width, channel to channel, height, width.
pub fn channel_first_order() -> (r: Vec<i64>)
    ensures
        r@ == seq![2i64, 0, 1],
        is_permutation(r@, 3),
{
    let r = vec![2i64, 0, 1];
    assert(r@ =~= seq![2i64, 0, 1]);
    r
}

/// The shape of `dims` rearranged by `order`, with a leading batch
/// dimension of one.
pub fn batched_shape(dims: &Vec<i64>, order: &Vec<i64>) -> (r: Vec<i64>)
    requires
        is_permutation(order@, dims@.len()),
    ensures
        r@ == seq![1i64] + permuted(dims@, order@),
{
    let mut r: Vec<i64> = vec![1i64];
    let mut i: usize = 0;
    while i < order.len()
        invariant
            is_permutation(order@, dims@.len()),
            0 <= i <= order@.len(),
            r@ =~= seq![1i64] + permuted(dims@, order@).take(i as int),
        decreases order@.len() - i,
    {
        let d = order[i];
        r.push(dims[d as usize]);
        i = i + 1;
        assert(r@ =~= seq![1i64] + permuted(dims@, order@).take(i as int));
    }
    assert(permuted(dims@, order@).take(i as int) =~= permuted(dims@, order@));
    r
}

/// The shape of the tensor the model is fed with: batch, channel, height,
/// width.
pub fn model_input_shape() -> (r: Vec<i64>)
    ensures
        r@ == seq![1i64, CHANNELS as i64, IMAGE_HEIGHT as i64, IMAGE_WIDTH as i64],
{
    let dims = sample_dims();
    let order = channel_first_order();
    let r = batched_shape(&dims, &order);
    assert(r@ =~= seq![1i64, CHANNELS as i64, IMAGE_HEIGHT as i64, IMAGE_WIDTH as i64]);
    r
}

/// The per-channel mean of the training images, in thousandths.
pub open spec fn mean_milli(c: int) -> u32 {
    seq![485u32, 456, 406][c]
}

/// The per-channel standard deviation of the training images, in
/// thousandths.
pub open spec fn std_milli(c: int) -> u32 {
    seq![229u32, 224, 225][c]
}

/// The mean that channel `c` is shifted by, in thousandths.
pub fn channel_mean_milli(c: usize) -> (r: u32)
    requires
        c < CHANNELS,
    ensures
        r == mean_milli(c as int),
{
    if c == 0 {
        485
    } else if c == 1 {
        456
    } else {
        406
    }
}

/// The standard deviation that channel `c` is divided by, in thousandths.
pub fn channel_std_milli(c: usize) -> (r: u32)
    requires
        c < CHANNELS,
    ensures
        r == std_milli(c as int),
{
    if c == 0 {
        229
    } else if c == 1 {
        224
    } else {
        225
    }
}

/// Where sample `i` of a channel-last input stands once the input is laid
/// out channel first.
pub open spec fn channel_first_position(i: int) -> int {
    (i % CHANNELS as int) * (IMAGE_HEIGHT * IMAGE_WIDTH) as int + i / CHANNELS as int
}

/// Preprocessing yields a tensor of shape batch 1, 3 channels, 224 × 224
/// that holds every sample exactly once, and sample `i` lands in channel
/// `i % 3`, the channel whose mean and standard deviation it is normalized
/// with.
pub proof fn lemma_channel_first_layout(i: int, j: int)
    requires
        0 <= i < INPUT_LEN,
        0 <= j < INPUT_LEN,
        i != j,
    ensures
        seq![1i64] + permuted(
            seq![IMAGE_HEIGHT as i64, IMAGE_WIDTH as i64, CHANNELS as i64],
            seq![2i64, 0, 1],
        ) == seq![1i64, CHANNELS as i64, IMAGE_HEIGHT as i64, IMAGE_WIDTH as i64],
        IMAGE_HEIGHT * IMAGE_WIDTH * CHANNELS == INPUT_LEN,
        0 <= channel_first_position(i) < INPUT_LEN,
        channel_first_position(i) != channel_first_position(j),
        channel_first_position(i) / (IMAGE_HEIGHT * IMAGE_WIDTH) as int == i % CHANNELS as int,
{
    assert(seq![1i64] + permuted(
        seq![IMAGE_HEIGHT as i64, IMAGE_WIDTH as i64, CHANNELS as i64],
        seq![2i64, 0, 1],
    ) =~= seq![1i64, CHANNELS as i64, IMAGE_HEIGHT as i64, IMAGE_WIDTH as i64]);
    let pi = channel_first_position(i);
    let pj = channel_first_position(j);
    assert(0 <= i / 3 < 50176) by (nonlinear_arith)
        requires
            0 <= i < 150528,
    ;
    assert(pi / 50176 == i % 3 && pi % 50176 == i / 3) by (nonlinear_arith)
        requires
            pi == (i % 3) * 50176 + i / 3,
            0 <= i / 3 < 50176,
            0 <= i % 3 < 3,
    ;
    assert(pj / 50176 == j % 3 && pj % 50176 == j / 3) by (nonlinear_arith)
        requires
            pj == (j % 3) * 50176 + j / 3,
            0 <= j / 3 < 50176,
            0 <= j % 3 < 3,
    ;
    assert(i == 3 * (i / 3) + i % 3);
    assert(j == 3 * (j / 3) + j % 3);
}

} // verus!
