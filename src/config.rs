//! Run configuration: the flags of one run, gathered once at startup and
//! handed to each stage as an immutable value.
//!
//! Confidences are fixed-point numbers in millionths (`1_000_000` is 1.0).
use vstd::prelude::*;
use vstd::string::StrSliceExecFns;

verus! {

/// One confidence unit: confidences are counted in millionths.
pub const CONF_ONE: u32 = 1_000_000;

/// Class confidence thresholds used when none are given: 0.2, then 0.15.
pub open spec fn default_class_confs() -> Seq<u32> {
    seq![200_000u32, 150_000u32]
}

/// Keypoint confidence threshold used when none is given: 0.5.
pub open spec fn default_keypoint_confs() -> Seq<u32> {
    seq![500_000u32]
}

/// The flags of one run.
pub struct Args {
    /// Model file; a run without one is refused.
    pub model: Option<String>,
    /// Source: a file path or a streaming URL.
    pub source: String,
    /// Output: a container path or a streaming URL.
    pub output: String,
    /// Numeric precision of the model.
    pub dtype: String,
    /// Model task (`det`, `seg`, `pose`, `cls`, `obb`).
    pub task: String,
    /// Model version, in tenths (`80` is version 8.0).
    pub ver_tenths: u32,
    /// Device, such as `cpu:0` or `cuda:0`.
    pub device: String,
    /// Model size code.
    pub scale: String,
    pub trt_fp16: bool,
    pub find_contours: bool,
    pub batch_size: usize,
    pub min_batch_size: usize,
    pub max_batch_size: usize,
    pub min_image_width: isize,
    pub image_width: isize,
    pub max_image_width: isize,
    pub min_image_height: isize,
    pub image_height: isize,
    pub max_image_height: isize,
    pub num_classes: Option<usize>,
    pub num_keypoints: Option<usize>,
    pub use_coco_80_classes: bool,
    pub use_imagenet_1k_classes: bool,
    /// Per-class confidence thresholds, in millionths.
    pub confs: Vec<u32>,
    /// Per-keypoint confidence thresholds, in millionths.
    pub keypoint_confs: Vec<u32>,
    pub exclude_classes: Vec<usize>,
    pub retain_classes: Vec<usize>,
    pub class_names: Vec<String>,
    pub keypoint_names: Vec<String>,
}

/// An invalid combination of flags, found at startup.
#[derive(Debug, PartialEq, Eq, Structural)]
pub enum ConfigError {
    /// The class is both retained and excluded.
    RetainedAndExcluded(usize),
    /// The batch sizes are not `1 <= min <= batch <= max`.
    BatchRange,
    /// No model file was named.
    MissingModel,
    /// The task is none of `det`, `seg`, `pose`, `cls`, `obb`.
    UnknownTask,
    /// The scale is none of `n`, `s`, `m`, `l`, `x`.
    UnknownScale,
    /// The dtype is none of `auto`, `fp16`, `fp32`, `int8`.
    UnknownDtype,
    /// The device is not `cpu:N`, `cuda:N` or `mps:N`.
    UnknownDevice,
}

/// Which class-name table the model is given.
pub enum ClassNames {
    /// None: the model's own.
    Unset,
    /// The 80 COCO classes.
    Coco80,
    /// The 1000 ImageNet classes.
    ImageNet1k,
    /// Names given one by one.
    Custom(Vec<String>),
}

/// What the model is built from, once the flags are checked.
pub struct ModelOptions {
    /// Model file.
    pub model_file: String,
    pub task: String,
    pub ver_tenths: u32,
    pub scale: String,
    pub dtype: String,
    pub device: String,
    pub trt_fp16: bool,
    pub find_contours: bool,
    /// Batch dimension as (min, optimal, max).
    pub batch: (usize, usize, usize),
    /// Image height as (min, optimal, max).
    pub height: (isize, isize, isize),
    /// Image width as (min, optimal, max).
    pub width: (isize, isize, isize),
    pub class_confs: Vec<u32>,
    pub keypoint_confs: Vec<u32>,
    pub retain_classes: Vec<usize>,
    pub exclude_classes: Vec<usize>,
    pub class_names: ClassNames,
    pub num_classes: Option<usize>,
    pub num_keypoints: Option<usize>,
    pub keypoint_names: Vec<String>,
}

/// The first class, in the order of `retain`, that `exclude` also holds.
pub open spec fn first_conflict(retain: Seq<usize>, exclude: Seq<usize>) -> Option<usize>
    decreases retain.len(),
{
    if retain.len() == 0 {
        None
    } else if exclude.contains(retain[0]) {
        Some(retain[0])
    } else {
        first_conflict(retain.drop_first(), exclude)
    }
}

pub open spec fn task_ok(s: Seq<char>) -> bool {
    s == "det"@ || s == "seg"@ || s == "pose"@ || s == "cls"@ || s == "obb"@
}

pub open spec fn scale_ok(s: Seq<char>) -> bool {
    s == "n"@ || s == "s"@ || s == "m"@ || s == "l"@ || s == "x"@
}

pub open spec fn dtype_ok(s: Seq<char>) -> bool {
    s == "auto"@ || s == "fp16"@ || s == "fp32"@ || s == "int8"@
}

/// One decimal digit or more, and nothing else.
pub open spec fn is_digits(s: Seq<char>) -> bool {
    s.len() > 0 && forall|i: int| 0 <= i < s.len() ==> '0' <= #[trigger] s[i] <= '9'
}

/// `s` is `prefix` followed by a device index.
pub open spec fn indexed(s: Seq<char>, prefix: Seq<char>) -> bool {
    &&& prefix.len() <= s.len()
    &&& s.take(prefix.len() as int) == prefix
    &&& is_digits(s.skip(prefix.len() as int))
}

pub open spec fn device_ok(s: Seq<char>) -> bool {
    indexed(s, "cpu:"@) || indexed(s, "cuda:"@) || indexed(s, "mps:"@)
}

/// The error that a set of flags gives, if any, checked in this order: a
/// class both retained and excluded, the batch sizes, a missing model, then
/// the task, scale, dtype and device.
pub open spec fn config_error_of(a: Args) -> Option<ConfigError> {
    match first_conflict(a.retain_classes@, a.exclude_classes@) {
        Some(k) => Some(ConfigError::RetainedAndExcluded(k)),
        None => if !(1 <= a.min_batch_size <= a.batch_size <= a.max_batch_size) {
            Some(ConfigError::BatchRange)
        } else if a.model is None {
            Some(ConfigError::MissingModel)
        } else if !task_ok(a.task@) {
            Some(ConfigError::UnknownTask)
        } else if !scale_ok(a.scale@) {
            Some(ConfigError::UnknownScale)
        } else if !dtype_ok(a.dtype@) {
            Some(ConfigError::UnknownDtype)
        } else if !device_ok(a.device@) {
            Some(ConfigError::UnknownDevice)
        } else {
            None
        },
    }
}

/// The thresholds in effect: the given ones, or the defaults when none is given.
pub open spec fn effective_confs(given: Seq<u32>, default: Seq<u32>) -> Seq<u32> {
    if given.len() == 0 {
        default
    } else {
        given
    }
}

/// The class names in effect: names given one by one win over the ImageNet
/// table, which wins over the COCO table.
pub open spec fn names_chosen(a: Args, c: ClassNames) -> bool {
    if a.class_names@.len() > 0 {
        c is Custom && c->Custom_0 == a.class_names
    } else if a.use_imagenet_1k_classes {
        c is ImageNet1k
    } else if a.use_coco_80_classes {
        c is Coco80
    } else {
        c is Unset
    }
}

/// A conflict, when found, is retained and excluded at once; when none is
/// found, no retained class is excluded.
proof fn lemma_first_conflict(retain: Seq<usize>, exclude: Seq<usize>)
    ensures
        first_conflict(retain, exclude) matches Some(k) ==> retain.contains(k) && exclude.contains(k),
        first_conflict(retain, exclude) is None ==> forall|i: int|
            0 <= i < retain.len() ==> !exclude.contains(#[trigger] retain[i]),
    decreases retain.len(),
{
    if retain.len() > 0 {
        let rest = retain.drop_first();
        lemma_first_conflict(rest, exclude);
        if !exclude.contains(retain[0]) {
            if let Some(k) = first_conflict(rest, exclude) {
                let j = choose|j: int| 0 <= j < rest.len() && rest[j] == k;
                assert(retain[j + 1] == k);
            } else {
                assert forall|i: int| 0 <= i < retain.len() implies !exclude.contains(
                    #[trigger] retain[i],
                ) by {
                    if i > 0 {
                        assert(retain[i] == rest[i - 1]);
                    }
                }
            }
        }
    }
}

impl Args {
    /// The flags of a run that sets none of them.
    pub fn new() -> (r: Args)
        ensures
            r.model is None,
            r.source@ == "./assets/bus.jpg"@,
            r.output@ == "./output.mp4"@,
            r.dtype@ == "auto"@,
            r.task@ == "det"@,
            r.ver_tenths == 80,
            r.device@ == "cpu:0"@,
            r.scale@ == "n"@,
            r.trt_fp16 && r.find_contours,
            r.min_batch_size == 1 && r.batch_size == 1 && r.max_batch_size == 4,
            r.min_image_width == 224 && r.image_width == 640 && r.max_image_width == 1280,
            r.min_image_height == 224 && r.image_height == 640 && r.max_image_height == 1280,
            r.num_classes is None && r.num_keypoints is None,
            !r.use_coco_80_classes && !r.use_imagenet_1k_classes,
            r.confs@.len() == 0 && r.keypoint_confs@.len() == 0,
            r.exclude_classes@.len() == 0 && r.retain_classes@.len() == 0,
            r.class_names@.len() == 0 && r.keypoint_names@.len() == 0,
    {
        Args {
            model: None,
            source: "./assets/bus.jpg".to_owned(),
            output: "./output.mp4".to_owned(),
            dtype: "auto".to_owned(),
            task: "det".to_owned(),
            ver_tenths: 80,
            device: "cpu:0".to_owned(),
            scale: "n".to_owned(),
            trt_fp16: true,
            find_contours: true,
            batch_size: 1,
            min_batch_size: 1,
            max_batch_size: 4,
            min_image_width: 224,
            image_width: 640,
            max_image_width: 1280,
            min_image_height: 224,
            image_height: 640,
            max_image_height: 1280,
            num_classes: None,
            num_keypoints: None,
            use_coco_80_classes: false,
            use_imagenet_1k_classes: false,
            confs: Vec::new(),
            keypoint_confs: Vec::new(),
            exclude_classes: Vec::new(),
            retain_classes: Vec::new(),
            class_names: Vec::new(),
            keypoint_names: Vec::new(),
        }
    }
}

/// Whether `s` is `prefix` followed by a device index.
fn is_indexed(s: &str, prefix: &str) -> (r: bool)
    ensures
        r == indexed(s@, prefix@),
{
    let n = s.unicode_len();
    let m = prefix.unicode_len();
    if m > n {
        return false;
    }
    let mut i: usize = 0;
    while i < m
        invariant
            m == prefix@.len(),
            n == s@.len(),
            m <= n,
            0 <= i <= m,
            forall|t: int| 0 <= t < i ==> s@[t] == prefix@[t],
        decreases m - i,
    {
        if s.get_char(i) != prefix.get_char(i) {
            assert(s@.take(m as int)[i as int] != prefix@[i as int]);
            return false;
        }
        i = i + 1;
    }
    assert(s@.take(m as int) =~= prefix@);
    if m == n {
        return false;
    }
    let mut j: usize = m;
    while j < n
        invariant
            m == prefix@.len(),
            n == s@.len(),
            m <= j <= n,
            forall|t: int| m <= t < j ==> '0' <= #[trigger] s@[t] <= '9',
        decreases n - j,
    {
        let c = s.get_char(j);
        if !('0' <= c && c <= '9') {
            assert(s@.skip(m as int)[j - m] == c);
            return false;
        }
        j = j + 1;
    }
    assert forall|t: int| 0 <= t < s@.skip(m as int).len() implies '0' <= #[trigger] s@.skip(
        m as int,
    )[t] <= '9' by {
        assert(s@.skip(m as int)[t] == s@[t + m]);
    }
    true
}

/// The source to read from.
pub fn input_source(args: &Args) -> (r: String)
    ensures
        r@ == args.source@,
{
    args.source.clone()
}

/// Where the annotated video goes.
pub fn output(args: &Args) -> (r: String)
    ensures
        r@ == args.output@,
{
    args.output.clone()
}

/// Checks the flags: `Err` exactly when a class is both retained and
/// excluded, the batch sizes are out of order, no model is named, or the
/// task, scale, dtype or device is not one of the accepted values; the first
/// of these, in that order, is reported.
pub fn validate(args: &Args) -> (r: Result<(), ConfigError>)
    ensures
        r is Ok <==> config_error_of(*args) is None,
        r matches Err(e) ==> config_error_of(*args) == Some(e),
        r matches Err(ConfigError::RetainedAndExcluded(k)) ==> args.retain_classes@.contains(k)
            && args.exclude_classes@.contains(k),
        r is Ok ==> forall|i: int|
            0 <= i < args.retain_classes@.len() ==> !args.exclude_classes@.contains(
                #[trigger] args.retain_classes@[i],
            ),
{
    proof {
        lemma_first_conflict(args.retain_classes@, args.exclude_classes@);
    }
    let mut i: usize = 0;
    assert(args.retain_classes@.skip(0) =~= args.retain_classes@);
    while i < args.retain_classes.len()
        invariant
            0 <= i <= args.retain_classes@.len(),
            first_conflict(args.retain_classes@, args.exclude_classes@) == first_conflict(
                args.retain_classes@.skip(i as int),
                args.exclude_classes@,
            ),
        decreases args.retain_classes.len() - i,
    {
        let k = args.retain_classes[i];
        let mut j: usize = 0;
        let mut found = false;
        while j < args.exclude_classes.len()
            invariant
                0 <= j <= args.exclude_classes@.len(),
                found <==> exists|t: int| 0 <= t < j && args.exclude_classes@[t] == k,
            decreases args.exclude_classes.len() - j,
        {
            if args.exclude_classes[j] == k {
                found = true;
            }
            j = j + 1;
        }
        proof {
            assert(found <==> args.exclude_classes@.contains(k));
            let s = args.retain_classes@.skip(i as int);
            assert(s[0] == k);
            assert(s.drop_first() =~= args.retain_classes@.skip(i as int + 1));
        }
        if found {
            return Err(ConfigError::RetainedAndExcluded(k));
        }
        i = i + 1;
    }
    proof {
        assert(args.retain_classes@.skip(i as int).len() == 0);
    }
    if !(1 <= args.min_batch_size && args.min_batch_size <= args.batch_size && args.batch_size
        <= args.max_batch_size) {
        return Err(ConfigError::BatchRange);
    }
    if args.model.is_none() {
        return Err(ConfigError::MissingModel);
    }
    if !(args.task == "det".to_owned() || args.task == "seg".to_owned() || args.task
        == "pose".to_owned() || args.task == "cls".to_owned() || args.task == "obb".to_owned()) {
        return Err(ConfigError::UnknownTask);
    }
    if !(args.scale == "n".to_owned() || args.scale == "s".to_owned() || args.scale
        == "m".to_owned() || args.scale == "l".to_owned() || args.scale == "x".to_owned()) {
        return Err(ConfigError::UnknownScale);
    }
    if !(args.dtype == "auto".to_owned() || args.dtype == "fp16".to_owned() || args.dtype
        == "fp32".to_owned() || args.dtype == "int8".to_owned()) {
        return Err(ConfigError::UnknownDtype);
    }
    let d = args.device.as_str();
    if !(is_indexed(d, "cpu:") || is_indexed(d, "cuda:") || is_indexed(d, "mps:")) {
        return Err(ConfigError::UnknownDevice);
    }
    Ok(())
}

/// Checks the flags, then gathers what the model is built from: the given
/// thresholds or their defaults, and the class-name table that wins.
pub fn build_options(args: Args) -> (r: Result<ModelOptions, ConfigError>)
    ensures
        r is Ok <==> config_error_of(args) is None,
        r matches Err(e) ==> config_error_of(args) == Some(e),
        r matches Ok(o) ==> {
            &&& args.model == Some(o.model_file)
            &&& o.task == args.task && o.ver_tenths == args.ver_tenths
            &&& o.scale == args.scale && o.dtype == args.dtype && o.device == args.device
            &&& o.trt_fp16 == args.trt_fp16 && o.find_contours == args.find_contours
            &&& o.batch == (args.min_batch_size, args.batch_size, args.max_batch_size)
            &&& o.height == (args.min_image_height, args.image_height, args.max_image_height)
            &&& o.width == (args.min_image_width, args.image_width, args.max_image_width)
            &&& o.class_confs@ == effective_confs(args.confs@, default_class_confs())
            &&& o.keypoint_confs@ == effective_confs(
                args.keypoint_confs@,
                default_keypoint_confs(),
            )
            &&& o.retain_classes@ == args.retain_classes@
            &&& o.exclude_classes@ == args.exclude_classes@
            &&& names_chosen(args, o.class_names)
            &&& o.num_classes == args.num_classes && o.num_keypoints == args.num_keypoints
            &&& o.keypoint_names == args.keypoint_names
        },
{
    match validate(&args) {
        Err(e) => {
            return Err(e);
        },
        Ok(()) => {},
    }
    let ghost a = args;
    let model_file = match args.model {
        Some(m) => m,
        None => {
            return Err(ConfigError::MissingModel);
        },
    };
    let class_confs = if args.confs.len() == 0 {
        vec![200_000u32, 150_000u32]
    } else {
        args.confs
    };
    let keypoint_confs = if args.keypoint_confs.len() == 0 {
        vec![500_000u32]
    } else {
        args.keypoint_confs
    };
    proof {
        assert(class_confs@ =~= effective_confs(a.confs@, default_class_confs()));
        assert(keypoint_confs@ =~= effective_confs(a.keypoint_confs@, default_keypoint_confs()));
    }
    let class_names = if args.class_names.len() > 0 {
        ClassNames::Custom(args.class_names)
    } else if args.use_imagenet_1k_classes {
        ClassNames::ImageNet1k
    } else if args.use_coco_80_classes {
        ClassNames::Coco80
    } else {
        ClassNames::Unset
    };
    Ok(
        ModelOptions {
            model_file,
            task: args.task,
            ver_tenths: args.ver_tenths,
            scale: args.scale,
            dtype: args.dtype,
            device: args.device,
            trt_fp16: args.trt_fp16,
            find_contours: args.find_contours,
            batch: (args.min_batch_size, args.batch_size, args.max_batch_size),
            height: (args.min_image_height, args.image_height, args.max_image_height),
            width: (args.min_image_width, args.image_width, args.max_image_width),
            class_confs,
            keypoint_confs,
            retain_classes: args.retain_classes,
            exclude_classes: args.exclude_classes,
            class_names,
            num_classes: args.num_classes,
            num_keypoints: args.num_keypoints,
            keypoint_names: args.keypoint_names,
        },
    )
}

} // verus!
