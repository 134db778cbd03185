//! Tests for the capacity-bounded operator registry.

use tfmicro::MutableOpResolver;
use tfmicro::TFLITE_REGISTRATIONS_MAX;

#[test]
fn mutable_op_resolver() {
    let ops = MutableOpResolver::empty()
        .add_abs()
        .add_add()
        .add_add_n()
        .add_argmax()
        .add_argmin()
        .add_assign_variable()
        .add_average_pool_2d()
        .add_batch_mat_mul()
        .add_batch_to_space_nd()
        .add_broadcast_args()
        .add_broadcast_to()
        .add_call_once()
        .add_cast()
        .add_ceil()
        .add_concatenation()
        .add_conv_2d()
        .add_cos()
        .add_cum_sum()
        .add_depth_to_space()
        .add_depthwise_conv_2d()
        .add_dequantize()
        .add_div()
        .add_elu()
        .add_embedding_lookup()
        .add_equal()
        .add_ethos_u()
        .add_exp()
        .add_expand_dims()
        .add_fill()
        .add_floor()
        .add_floor_div()
        .add_floor_mod()
        .add_fully_connected()
        .add_gather()
        .add_gather_nd()
        .add_greater()
        .add_greater_equal()
        .add_hard_swish()
        .add_if()
        .add_l2_normalization()
        .add_l2_pool_2d()
        .add_leaky_relu()
        .add_less()
        .add_less_equal()
        .add_log()
        .add_log_softmax()
        .add_maximum()
        .add_max_pool_2d()
        .add_mirror_pad()
        .add_mean()
        .add_minimum()
        .add_mul()
        .add_neg()
        .add_not_equal()
        .add_pack()
        .add_pad_v2()
        .add_prelu()
        .add_quantize()
        .add_read_variable()
        .add_reduce_max()
        .add_relu()
        .add_relu6()
        .add_reshape()
        .add_resize_bilinear()
        .add_resize_nearest_neighbor()
        .add_round()
        .add_rsqrt()
        .add_select_v2()
        .add_shape()
        .add_sin()
        .add_slice()
        .add_softmax()
        .add_space_to_batch_nd()
        .add_space_to_depth()
        .add_split()
        .add_split_v()
        .add_squeeze()
        .add_sqrt()
        .add_square()
        .add_squared_difference()
        .add_strided_slice()
        .add_sub()
        .add_svdf()
        .add_tanh()
        .add_transpose_conv()
        .add_unpack()
        .add_unidirectional_sequence_lstm()
        .add_var_handle()
        .add_zeros_like();

    let _ = ops
        .add_circular_buffer()
        .add_delay()
        .add_detection_postprocess()
        .add_energy()
        .add_fft_auto_scale()
        .add_filter_bank()
        .add_filter_bank_log()
        .add_filter_bank_spectral_subtraction()
        .add_filter_bank_square_root()
        .add_framer()
        .add_irfft()
        .add_overlap_add()
        .add_pcan()
        .add_rfft()
        .add_stacker()
        .add_window();
}

#[test]
fn empty_resolver_has_no_operators() {
    let r = MutableOpResolver::empty();
    assert!(r.is_empty());
    assert_eq!(r.len(), 0);
    let d = MutableOpResolver::default();
    assert!(d.is_empty());
}

#[test]
fn len_counts_each_added_operator() {
    let r = MutableOpResolver::empty();
    assert_eq!(r.len(), 0);
    let r = r.add_softmax();
    assert_eq!(r.len(), 1);
    assert!(!r.is_empty());
    let r = r.add_fully_connected();
    assert_eq!(r.len(), 2);
    let r = r.add_reshape();
    assert_eq!(r.len(), 3);
    let r = r.add_depthwise_conv_2d();
    assert_eq!(r.len(), 4);
}

#[test]
fn resolver_fills_to_capacity() {
    let mut r = MutableOpResolver::empty();
    for i in 0..TFLITE_REGISTRATIONS_MAX {
        assert_eq!(r.len(), i);
        r = r.add_abs();
    }
    assert_eq!(r.len(), TFLITE_REGISTRATIONS_MAX);
}
