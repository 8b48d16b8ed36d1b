//! The static catalog of per-architecture preprocessing recipes.
//!
//! Three architectures are supported.  Each record fixes a resize to
//! 224 x 224, a cast to a numeric array, a normalization, the trailing
//! coercion to the engine's tensor, and — for the channel-last
//! architecture — a transpose; the record's one `image_size` field is
//! threaded into both the resize step and the engine input shape, so the
//! two can never drift apart.

use vstd::prelude::*;
use crate::models::{Channels, ModelArchitecture, ModelConfig};
use crate::pipeline::{
    chain_from, chw_shape, coerce_spec, lemma_norm_fits_for_pixels, lemma_perm_inv,
    lemma_pixel_nums_bounded, lemma_size4_permuted, norm_result_view, perm_hits, permuted_shape,
    pipeline_run_spec, pixels_to_nums, run_steps_spec, size4, step_spec, ImageSize, IrKind, IrView,
    GridView, Normalization, PixelsView, ResizeFilter, ResizeRGBImage, ToArray, ToTensor,
    TransformStep, TransformationPipeline, Transpose,
};
use vstd::string::StringExecFns;

verus! {

/// What every catalog record guarantees: a well-formed pipeline whose
/// declared step output variants chain without a mismatch from the pixel
/// image at its head, whose final stage coerces to the engine's tensor,
/// and whose resize step carries the record's own `image_size`.
pub open spec fn catalog_record_ok(cfg: ModelConfig) -> bool {
    &&& cfg.wf()
    &&& cfg.image_size == (ImageSize { width: 224, height: 224 })
    &&& chain_from(cfg.image_transformation.steps@, IrKind::RgbImage)
    &&& cfg.image_transformation.steps@.len() >= 1
    &&& (cfg.image_transformation.steps@[0] matches TransformStep::Resize(st)
        && st.image_size == cfg.image_size && st.filter == ResizeFilter::Nearest)
}

/// The mean/standard-deviation normalization the channel-first recipes
/// share, in thousandths.
pub open spec fn imagenet_normalization_ok(n: Normalization) -> bool {
    &&& n.zeroone
    &&& n.sub_milli@ == seq![485u32, 456u32, 406u32]
    &&& n.div_milli@ == seq![229u32, 224u32, 225u32]
}

/// The fixed affine normalization of the mobile-efficient recipe: shift
/// 127 and scale 128, in thousandths, without the division by 255.
pub open spec fn affine_normalization_ok(n: Normalization) -> bool {
    &&& !n.zeroone
    &&& n.sub_milli@ == seq![127000u32, 127000u32, 127000u32]
    &&& n.div_milli@ == seq![128000u32, 128000u32, 128000u32]
}

/// What the catalog promises for each architecture, beyond what every
/// record guarantees: the recipe's steps, its layer, its source and its
/// channel layout.
pub open spec fn catalog_entry_ok(model: ModelArchitecture, cfg: ModelConfig) -> bool {
    let steps = cfg.image_transformation.steps@;
    match model {
        ModelArchitecture::MobileNetV2 => {
            &&& cfg.channels == Channels::CWH
            &&& cfg.model_name@ == "MobileNetV2"@
            &&& cfg.model_url@
                == "https://github.com/onnx/models/raw/master/vision/classification/mobilenet/model/mobilenetv2-7.onnx"@
            &&& cfg.layer_name@ == "Reshape_103"@
            &&& steps.len() == 4
            &&& (steps[1] matches TransformStep::ToArray(_))
            &&& (steps[2] matches TransformStep::Normalize(n) && imagenet_normalization_ok(n))
            &&& (steps[3] matches TransformStep::ToTensor(_))
        },
        ModelArchitecture::ResNet152 => {
            &&& cfg.channels == Channels::CWH
            &&& cfg.model_name@ == "ResNet152"@
            &&& cfg.model_url@
                == "https://github.com/onnx/models/raw/master/vision/classification/resnet/model/resnet152-v2-7.onnx"@
            &&& cfg.layer_name@ == "resnetv27_flatten0_reshape0"@
            &&& steps.len() == 4
            &&& (steps[1] matches TransformStep::ToArray(_))
            &&& (steps[2] matches TransformStep::Normalize(n) && imagenet_normalization_ok(n))
            &&& (steps[3] matches TransformStep::ToTensor(_))
        },
        ModelArchitecture::EfficientNetLite4 => {
            &&& cfg.channels == Channels::WHC
            &&& cfg.model_name@ == "EfficientNet-Lite4"@
            &&& cfg.model_url@
                == "https://github.com/onnx/models/raw/master/vision/classification/efficientnet-lite4/model/efficientnet-lite4-11.onnx"@
            &&& cfg.layer_name@ == "efficientnet-lite4/model/head/Squeeze"@
            &&& steps.len() == 5
            &&& (steps[1] matches TransformStep::ToArray(_))
            &&& (steps[2] matches TransformStep::Normalize(n) && affine_normalization_ok(n))
            &&& (steps[3] matches TransformStep::ToTensor(_))
            &&& (steps[4] matches TransformStep::Transpose(t) && t.axes@ == seq![
                0usize,
                2usize,
                3usize,
                1usize,
            ])
        },
    }
}

/// Builds the record of one architecture.  The catalog is pure data: the
/// same architecture always yields the same record, the records' pipelines
/// chain, and the resize target and the engine input shape come from the
/// record's one `image_size` field.
pub fn load_model_config(model: ModelArchitecture) -> (r: ModelConfig)
    ensures
        catalog_record_ok(r),
        catalog_entry_ok(model, r),
{
    let size = ImageSize { width: 224, height: 224 };
    let mut steps: Vec<TransformStep> = Vec::new();
    steps.push(
        TransformStep::Resize(
            ResizeRGBImage {
                image_size: ImageSize { width: 224, height: 224 },
                filter: ResizeFilter::Nearest,
            },
        ),
    );
    steps.push(TransformStep::ToArray(ToArray {}));
    match model {
        ModelArchitecture::MobileNetV2 | ModelArchitecture::ResNet152 => {
            steps.push(
                TransformStep::Normalize(
                    Normalization {
                        sub_milli: [485, 456, 406],
                        div_milli: [229, 224, 225],
                        zeroone: true,
                    },
                ),
            );
            steps.push(TransformStep::ToTensor(ToTensor {}));
        },
        ModelArchitecture::EfficientNetLite4 => {
            steps.push(
                TransformStep::Normalize(
                    Normalization {
                        sub_milli: [127000, 127000, 127000],
                        div_milli: [128000, 128000, 128000],
                        zeroone: false,
                    },
                ),
            );
            steps.push(TransformStep::ToTensor(ToTensor {}));
            steps.push(TransformStep::Transpose(Transpose { axes: [0, 2, 3, 1] }));
        },
    }
    let pipeline = TransformationPipeline { steps };
    proof {
        assert(chain_from(pipeline.steps@, IrKind::RgbImage)) by {
            reveal_with_fuel(chain_from, 7);
        }
    }
    match model {
        ModelArchitecture::MobileNetV2 => ModelConfig {
            model_name: String::from_str("MobileNetV2"),
            model_url: String::from_str(
                "https://github.com/onnx/models/raw/master/vision/classification/mobilenet/model/mobilenetv2-7.onnx",
            ),
            image_transformation: pipeline,
            image_size: size,
            layer_name: String::from_str("Reshape_103"),
            channels: Channels::CWH,
        },
        ModelArchitecture::ResNet152 => ModelConfig {
            model_name: String::from_str("ResNet152"),
            model_url: String::from_str(
                "https://github.com/onnx/models/raw/master/vision/classification/resnet/model/resnet152-v2-7.onnx",
            ),
            image_transformation: pipeline,
            image_size: size,
            layer_name: String::from_str("resnetv27_flatten0_reshape0"),
            channels: Channels::CWH,
        },
        ModelArchitecture::EfficientNetLite4 => ModelConfig {
            model_name: String::from_str("EfficientNet-Lite4"),
            model_url: String::from_str(
                "https://github.com/onnx/models/raw/master/vision/classification/efficientnet-lite4/model/efficientnet-lite4-11.onnx",
            ),
            image_transformation: pipeline,
            image_size: size,
            layer_name: String::from_str("efficientnet-lite4/model/head/Squeeze"),
            channels: Channels::WHC,
        },
    }
}

/// Every catalog recipe is total on decoded images: running it on any
/// well-formed pixel image succeeds — no step rejects its input, no
/// normalization leaves the exact range — and the tensor it yields has the
/// architecture's engine shape: channel-first `(1, 3, 224, 224)`, or
/// channel-last `(1, 224, 224, 3)` for the mobile-efficient recipe.
pub proof fn lemma_catalog_recipe_runs(model: ModelArchitecture, cfg: ModelConfig, p: PixelsView)
    requires
        catalog_record_ok(cfg),
        catalog_entry_ok(model, cfg),
        p.wf(),
    ensures
        pipeline_run_spec(cfg.image_transformation.steps@, p) matches Ok(g) && g.wf() && g.shape
            == (match cfg.channels {
            Channels::CWH => seq![1usize, 3usize, 224usize, 224usize],
            Channels::WHC => seq![1usize, 224usize, 224usize, 3usize],
        }),
{
    let steps = cfg.image_transformation.steps@;
    let st = steps[0]->Resize_0;
    let v0 = IrView::RgbImage(p);
    let p1 = PixelsView {
        width: 224,
        height: 224,
        data: crate::pipeline::resized(
            p.data,
            p.width as int,
            p.height as int,
            224,
            224,
            st.filter == ResizeFilter::Nearest,
        ),
    };
    let v1 = IrView::RgbImage(p1);
    assert(step_spec(steps[0], v0) == Ok::<IrView, crate::pipeline::ConversionError>(v1));
    let g1 = GridView {
        shape: chw_shape(224, 224),
        chan_axis: 1,
        nums: pixels_to_nums(p1),
        dens: seq![1i64, 1i64, 1i64],
    };
    let v2 = IrView::Array4(g1);
    assert(step_spec(steps[1], v1) == Ok::<IrView, crate::pipeline::ConversionError>(v2));
    assert(g1.wf()) by {
        assert(size4(chw_shape(224, 224)) == 3 * 224 * 224);
    }
    let n = steps[2]->Normalize_0;
    assert(crate::pipeline::norm_fits(g1, n)) by {
        lemma_pixel_nums_bounded(p1);
        lemma_norm_fits_for_pixels(g1, n);
    }
    let g2 = norm_result_view(g1, n);
    let v3 = IrView::Array4(g2);
    assert(step_spec(steps[2], v2) == Ok::<IrView, crate::pipeline::ConversionError>(v3));
    assert(g2.wf()) by {
        assert(n.div_milli@[0] >= 1 && n.div_milli@[1] >= 1 && n.div_milli@[2] >= 1);
        assert(g1.dens[0] == 1 && g1.dens[1] == 1 && g1.dens[2] == 1);
        assert(crate::pipeline::norm_dens_spec(g1, n)[0] == n.d_of(0) * g1.dens[0]
            && crate::pipeline::norm_dens_spec(g1, n)[1] == n.d_of(1) * g1.dens[1]
            && crate::pipeline::norm_dens_spec(g1, n)[2] == n.d_of(2) * g1.dens[2]);
        assert(crate::pipeline::norm_dens_spec(g1, n)[0] <= i64::MAX
            && crate::pipeline::norm_dens_spec(g1, n)[1] <= i64::MAX
            && crate::pipeline::norm_dens_spec(g1, n)[2] <= i64::MAX);
        assert(g2.dens[0] == crate::pipeline::norm_dens_spec(g1, n)[0] as i64 && g2.dens[1]
            == crate::pipeline::norm_dens_spec(g1, n)[1] as i64 && g2.dens[2]
            == crate::pipeline::norm_dens_spec(g1, n)[2] as i64);
        assert(g2.dens[0] > 0 && g2.dens[1] > 0 && g2.dens[2] > 0);
        assert(forall|c: int| 0 <= c < 3 ==> #[trigger] g2.dens[c] > 0);
    }
    let v4 = IrView::Tensor(g2);
    assert(step_spec(steps[3], v3) == Ok::<IrView, crate::pipeline::ConversionError>(v4));
    assert(steps.skip(0) =~= steps);
    assert(steps.skip(0).drop_first() =~= steps.skip(1));
    assert(steps.skip(1).drop_first() =~= steps.skip(2));
    assert(steps.skip(2).drop_first() =~= steps.skip(3));
    assert(steps.skip(3).drop_first() =~= steps.skip(4));
    assert(steps.skip(0)[0] == steps[0] && steps.skip(1)[0] == steps[1] && steps.skip(2)[0]
        == steps[2] && steps.skip(3)[0] == steps[3]);
    match model {
        ModelArchitecture::MobileNetV2 | ModelArchitecture::ResNet152 => {
            assert(steps.skip(4) =~= Seq::<TransformStep>::empty());
            assert(run_steps_spec(steps.skip(4), v4) == Ok::<
                IrView,
                crate::pipeline::ConversionError,
            >(v4));
            assert(run_steps_spec(steps.skip(3), v3) == Ok::<
                IrView,
                crate::pipeline::ConversionError,
            >(v4));
            assert(run_steps_spec(steps.skip(2), v2) == Ok::<
                IrView,
                crate::pipeline::ConversionError,
            >(v4));
            assert(run_steps_spec(steps.skip(1), v1) == Ok::<
                IrView,
                crate::pipeline::ConversionError,
            >(v4));
            assert(run_steps_spec(steps, v0) == Ok::<IrView, crate::pipeline::ConversionError>(
                v4,
            ));
            assert(coerce_spec(v4) == g2);
            assert(g2.shape =~= seq![1usize, 3usize, 224usize, 224usize]);
        },
        ModelArchitecture::EfficientNetLite4 => {
            let tr = steps[4]->Transpose_0;
            let axes = tr.axes@;
            assert(crate::pipeline::valid_perm4(axes)) by {
                assert(axes[0] == 0 && axes[1] == 2 && axes[2] == 3 && axes[3] == 1);
                assert(perm_hits(axes, 0));
                assert(perm_hits(axes, 1));
                assert(perm_hits(axes, 2));
                assert(perm_hits(axes, 3));
            }
            let g3 = crate::pipeline::transpose_result_view(g2, axes);
            let v5 = IrView::Tensor(g3);
            assert(step_spec(steps[4], v4) == Ok::<IrView, crate::pipeline::ConversionError>(
                v5,
            ));
            assert(steps.skip(4).drop_first() =~= steps.skip(5));
            assert(steps.skip(4)[0] == steps[4]);
            assert(steps.skip(5) =~= Seq::<TransformStep>::empty());
            assert(run_steps_spec(steps.skip(5), v5) == Ok::<
                IrView,
                crate::pipeline::ConversionError,
            >(v5));
            assert(run_steps_spec(steps.skip(4), v4) == Ok::<
                IrView,
                crate::pipeline::ConversionError,
            >(v5));
            assert(run_steps_spec(steps.skip(3), v3) == Ok::<
                IrView,
                crate::pipeline::ConversionError,
            >(v5));
            assert(run_steps_spec(steps.skip(2), v2) == Ok::<
                IrView,
                crate::pipeline::ConversionError,
            >(v5));
            assert(run_steps_spec(steps.skip(1), v1) == Ok::<
                IrView,
                crate::pipeline::ConversionError,
            >(v5));
            assert(run_steps_spec(steps, v0) == Ok::<IrView, crate::pipeline::ConversionError>(
                v5,
            ));
            assert(g3.shape =~= seq![1usize, 224usize, 224usize, 3usize]) by {
                assert(permuted_shape(g2.shape, axes)[0] == g2.shape[0]);
                assert(permuted_shape(g2.shape, axes)[1] == g2.shape[2]);
                assert(permuted_shape(g2.shape, axes)[2] == g2.shape[3]);
                assert(permuted_shape(g2.shape, axes)[3] == g2.shape[1]);
            }
            assert(g3.wf()) by {
                lemma_size4_permuted(g2.shape, axes);
                lemma_perm_inv(axes, g2.chan_axis as int);
                assert(axes[3] == 1);
                assert(crate::pipeline::perm_inv(axes)[1] == 3);
            }
            assert(coerce_spec(v5) == g3);
        },
    }
}

} // verus!
