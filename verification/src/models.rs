//! Model records, loading decisions, compilation and inference.
//!
//! A `ModelConfig` binds one architecture to its preprocessing pipeline,
//! spatial size, channel layout, output layer and weight source.  Loading
//! is split along the side effects: this module decides — the cache
//! filename, whether a fetch is due, the engine input shape, how a fetch
//! outcome is judged — and compiles weight bytes behind the engine's
//! trusted reader; reading files and talking to the network stay with the
//! caller.

use vstd::prelude::*;
use crate::pipeline::{tensor_shape_of, ImageSize, TensorData, TransformationPipeline};
use crate::utils::{model_filename, sanitized};
use tract_onnx::prelude::{
    DatumType, Framework, InferenceFact, InferenceModelExt, IntoRunnable, IntoTensor, TValue, TVec,
    Tensor,
};

verus! {

/// How the batch tensor's axes are ordered for the engine: channel before
/// or after the spatial axes.
#[derive(PartialEq, Eq, Structural, Clone, Copy, Debug)]
pub enum Channels {
    CWH,
    WHC,
}

/// One architecture's record: its display name, where its weights live,
/// its preprocessing pipeline, its spatial size, the output layer to read,
/// and its channel ordering.  Read-only after catalog construction.
pub struct ModelConfig {
    pub model_name: String,
    pub model_url: String,
    pub image_transformation: TransformationPipeline,
    pub image_size: ImageSize,
    pub layer_name: String,
    pub channels: Channels,
}

impl ModelConfig {
    pub open spec fn wf(&self) -> bool {
        &&& self.image_transformation.wf()
        &&& self.image_size.wf()
    }
}

/// The supported architectures: the catalog maps each to exactly one
/// record.
#[derive(PartialEq, Eq, Structural, Clone, Copy, Debug)]
pub enum ModelArchitecture {
    MobileNetV2,
    ResNet152,
    EfficientNetLite4,
}

/// Loading failed: the weight fetch came back unsuccessful, or the engine
/// rejected the weight file under the record's declared input shape.
#[derive(Debug)]
pub enum LoadError {
    FetchFailed { message: String },
    IncompatibleShape { message: String },
}

/// Inference failed: the engine could not execute the plan or hand back
/// the selected output layer.
#[derive(Debug)]
pub enum InferError {
    RunFailed { message: String },
}

/// The engine input shape a record's tensor is compiled for: one batch and
/// three color channels around the record's own spatial size, ordered per
/// its channel layout.
pub open spec fn input_shape_spec(c: ModelConfig) -> Seq<usize> {
    match c.channels {
        Channels::CWH => seq![1usize, 3usize, c.image_size.width, c.image_size.height],
        Channels::WHC => seq![1usize, c.image_size.width, c.image_size.height, 3usize],
    }
}

/// Builds the engine input shape from the record, and from nothing else:
/// the same `image_size` field that the record's resize step carries.
pub fn input_shape(config: &ModelConfig) -> (r: Vec<usize>)
    ensures
        r@ == input_shape_spec(*config),
{
    let mut v: Vec<usize> = Vec::new();
    match config.channels {
        Channels::CWH => {
            v.push(1);
            v.push(3);
            v.push(config.image_size.width);
            v.push(config.image_size.height);
        },
        Channels::WHC => {
            v.push(1);
            v.push(config.image_size.width);
            v.push(config.image_size.height);
            v.push(3);
        },
    }
    proof {
        assert(v@ =~= input_shape_spec(*config));
    }
    v
}

/// What a load will do, decided from the record and the cache alone.
pub struct LoadPlan {
    /// A fetch is due exactly when the weight file is not cached.
    pub needs_fetch: bool,
    /// The canonical cache path of the record's weight file.
    pub filename: String,
    /// Where to fetch from when a fetch is due.
    pub url: String,
    /// The input shape the weights will be compiled under.
    pub input_shape: Vec<usize>,
}

/// Relies on `String::clone`, which copies the characters.
#[verifier::external_body]
fn clone_string(s: &String) -> (r: String)
    ensures
        r@ == s@,
{
    s.clone()
}

/// Plans a load.  A cached weight file is never fetched again; everything
/// else — filename, source, input shape — is derived from the one record.
pub fn plan_load(config: &ModelConfig, cached: bool) -> (r: LoadPlan)
    ensures
        r.needs_fetch == !cached,
        r.filename@ == "models/"@ + sanitized(config.model_name@) + ".onnx"@,
        r.url@ == config.model_url@,
        r.input_shape@ == input_shape_spec(*config),
{
    LoadPlan {
        needs_fetch: !cached,
        filename: model_filename(&config.model_name),
        url: clone_string(&config.model_url),
        input_shape: input_shape(config),
    }
}

/// Judges a weight-file fetch: any 2xx status succeeds; any other outcome
/// fails with the server's body when one was sent and with the status line
/// otherwise, and nothing is written to the cache.
pub fn check_fetch_status(status: u16, body: String, status_line: String) -> (r: Result<
    (),
    LoadError,
>)
    ensures
        (200 <= status < 300) <==> r is Ok,
        !(200 <= status < 300) ==> (r matches Err(LoadError::FetchFailed { message }) && message@
            == (if body@.len() > 0 {
            body@
        } else {
            status_line@
        })),
{
    if 200 <= status && status < 300 {
        Ok(())
    } else if !body.as_str().is_empty() {
        Err(LoadError::FetchFailed { message: body })
    } else {
        Err(LoadError::FetchFailed { message: status_line })
    }
}

/// The loaded, shape-specialized inference handle: the engine's compiled
/// plan, opaque to verification.
#[verifier::external_body]
pub struct RunnableModel {
    plan: std::sync::Arc<tract_onnx::prelude::TypedSimplePlan>,
}

/// A record together with its loaded handle.
pub struct ModelA {
    pub model_config: ModelConfig,
    pub model: RunnableModel,
}

/// Relies on tract's ONNX reader and compiler: reads the weight bytes,
/// pins the single input to a 32-bit float tensor of the given shape,
/// selects the named output layer, optimizes, and builds a runnable plan.
/// Fails with the engine's message whenever the engine rejects the bytes,
/// the shape or the layer name.
#[verifier::external_body]
fn compile_onnx(bytes: &Vec<u8>, shape: &Vec<usize>, layer_name: &String) -> (r: Result<
    RunnableModel,
    String,
>) {
    let plan = tract_onnx::onnx().model_for_read(&mut bytes.as_slice())
        .and_then(|m| m.with_input_fact(0, InferenceFact::dt_shape(DatumType::F32, shape.clone())))
        .and_then(|m| m.with_outputs_by_name([layer_name.as_str()]))
        .and_then(|m| m.into_optimized())
        .and_then(|m| m.into_runnable())
        .map_err(|e| e.to_string());
    match plan {
        Ok(p) => Ok(RunnableModel { plan: p }),
        Err(e) => Err(e),
    }
}

/// Compiles cached weight bytes for a record.  The input shape is built
/// from the record's channel layout and spatial size — the same field its
/// resize step was built from — and the record's output layer is selected,
/// so a compiled handle can only fit its own record.
pub fn compile_model(config: &ModelConfig, weights: &Vec<u8>) -> (r: Result<
    RunnableModel,
    LoadError,
>)
    ensures
        r matches Err(e) ==> e matches LoadError::IncompatibleShape { .. },
{
    let shape = input_shape(config);
    match compile_onnx(weights, &shape, &config.layer_name) {
        Ok(m) => Ok(m),
        Err(msg) => Err(LoadError::IncompatibleShape { message: msg }),
    }
}

/// The engine's answer: the selected output layer's buffer, shape-tagged.
pub struct NumericOutput {
    /// Extents of the output tensor's axes.
    pub shape: Vec<usize>,
    /// The output layer's values, in the engine's buffer.
    pub data: Tensor,
}

impl NumericOutput {
    pub open spec fn wf(&self) -> bool {
        tensor_shape_of(self.data) == self.shape@
    }
}

/// Relies on tract's `SimplePlan::run`: executes the compiled plan on the
/// single input tensor and hands back the single selected output.
#[verifier::external_body]
fn run_plan(model: &RunnableModel, input: Tensor) -> (r: Result<Tensor, String>) {
    let inputs: TVec<TValue> = TVec::from(vec![TValue::from(input)]);
    match model.plan.run(inputs) {
        Ok(mut out) => Ok(out.remove(0).into_tensor()),
        Err(e) => Err(e.to_string()),
    }
}

/// Relies on `Tensor::shape`: the extents of the tensor's axes.
#[verifier::external_body]
fn tensor_shape_vec(t: &Tensor) -> (r: Vec<usize>)
    ensures
        r@ == tensor_shape_of(*t),
{
    t.shape().to_vec()
}

/// Feeds exactly one pipeline-produced tensor into the handle and reads
/// back the selected output layer, shape-tagged.  The caller interprets
/// the values; nothing is re-ranked or thresholded here.
pub fn infer(model: &RunnableModel, input: TensorData) -> (r: Result<NumericOutput, InferError>)
    ensures
        r matches Ok(o) ==> o.wf(),
{
    let raw = input.into_raw();
    match run_plan(model, raw) {
        Ok(t) => {
            let shape = tensor_shape_vec(&t);
            Ok(NumericOutput { shape, data: t })
        },
        Err(m) => Err(InferError::RunFailed { message: m }),
    }
}

} // verus!
