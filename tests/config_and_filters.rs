use crossbeam::queue::SegQueue;
use yolo_vision::config::{build_options, input_source, output, validate, Args, ClassNames, ConfigError};
use yolo_vision::errors::PipelineError;
use yolo_vision::filter::{conf_threshold, keypoint_visible, ClassFilter, Detection};
use yolo_vision::geometry::{calculate_iou_fraction, Rect};
use yolo_vision::stats::{calculate_stats, collect_and_calculate_stats, should_report, take_sample, MAX_DRAINED};

fn det(class_id: usize, conf: u32) -> Detection {
    Detection { bbox: Rect { x: 0, y: 0, width: 10, height: 10 }, class_id, conf }
}

#[test]
fn defaults_of_a_run() {
    let a = Args::new();
    assert_eq!(input_source(&a), "./assets/bus.jpg");
    assert_eq!(output(&a), "./output.mp4");
    assert_eq!(a.task, "det");
    assert_eq!(a.device, "cpu:0");
    assert_eq!((a.min_batch_size, a.batch_size, a.max_batch_size), (1, 1, 4));
    assert_eq!(a.ver_tenths, 80);
    assert_eq!(validate(&a), Err(ConfigError::MissingModel));
    let mut a = a;
    a.model = Some("yolov8n.onnx".to_string());
    let o = build_options(a).ok().unwrap();
    assert_eq!(o.class_confs, vec![200_000, 150_000]);
    assert_eq!(o.keypoint_confs, vec![500_000]);
    assert_eq!(o.model_file, "yolov8n.onnx");
    assert_eq!(o.width, (224, 640, 1280));
    assert!(matches!(o.class_names, ClassNames::Unset));
}

#[test]
fn retained_and_excluded_class_is_config_error() {
    let mut a = Args::new();
    a.retain_classes = vec![0];
    a.exclude_classes = vec![0];
    assert_eq!(validate(&a), Err(ConfigError::RetainedAndExcluded(0)));
    let e = build_options(a).err().unwrap();
    assert_eq!(e, ConfigError::RetainedAndExcluded(0));
    assert_eq!(PipelineError::Config(e).exit_code(), 1);
}

#[test]
fn first_conflict_follows_retain_order() {
    let mut a = Args::new();
    a.retain_classes = vec![5, 2, 7];
    a.exclude_classes = vec![7, 2];
    assert_eq!(validate(&a), Err(ConfigError::RetainedAndExcluded(2)));
}

#[test]
fn batch_sizes_out_of_order_rejected() {
    let mut a = Args::new();
    a.batch_size = 8;
    assert_eq!(validate(&a), Err(ConfigError::BatchRange));
    let mut b = Args::new();
    b.min_batch_size = 0;
    assert_eq!(validate(&b), Err(ConfigError::BatchRange));
    let mut c = Args::new();
    c.model = Some("m.onnx".to_string());
    c.retain_classes = vec![1];
    c.exclude_classes = vec![2];
    assert_eq!(validate(&c), Ok(()));
}

#[test]
fn given_names_and_thresholds_win() {
    let mut a = Args::new();
    a.model = Some("yolov8m.onnx".to_string());
    a.confs = vec![300_000];
    a.use_coco_80_classes = true;
    a.use_imagenet_1k_classes = true;
    let o = build_options(a).ok().unwrap();
    assert_eq!(o.model_file, "yolov8m.onnx");
    assert_eq!(o.class_confs, vec![300_000]);
    assert!(matches!(o.class_names, ClassNames::ImageNet1k));

    let mut b = Args::new();
    b.model = Some("m.onnx".to_string());
    b.use_coco_80_classes = true;
    assert!(matches!(build_options(b).ok().unwrap().class_names, ClassNames::Coco80));

    let mut c = Args::new();
    c.model = Some("m.onnx".to_string());
    c.use_coco_80_classes = true;
    c.class_names = vec!["cat".to_string(), "dog".to_string()];
    match build_options(c).ok().unwrap().class_names {
        ClassNames::Custom(n) => assert_eq!(n, vec!["cat".to_string(), "dog".to_string()]),
        _ => panic!("custom names expected"),
    }
}

#[test]
fn single_threshold_broadcasts_to_all_classes() {
    let f = ClassFilter { retain: vec![], exclude: vec![], confs: vec![900_000] };
    assert_eq!(conf_threshold(&f.confs, 2), 900_000);
    assert!(f.filter_detections(&vec![det(2, 800_000)]).is_empty());
    assert_eq!(f.filter_detections(&vec![det(2, 950_000)]), vec![det(2, 950_000)]);
}

#[test]
fn retain_exclude_and_thresholds_filter() {
    let f = ClassFilter { retain: vec![0, 1, 2], exclude: vec![1], confs: vec![200_000, 150_000] };
    let dets = vec![det(0, 250_000), det(0, 100_000), det(1, 900_000), det(2, 150_000), det(3, 990_000), det(2, 149_999)];
    assert_eq!(f.filter_detections(&dets), vec![det(0, 250_000), det(2, 150_000)]);
    let open = ClassFilter { retain: vec![], exclude: vec![], confs: vec![] };
    assert_eq!(open.filter_detections(&dets), dets);
    assert!(open.keep(&det(42, 0)));
}

#[test]
fn keypoint_thresholds_fill_with_last() {
    let k = vec![500_000, 300_000];
    assert!(keypoint_visible(&k, 0, 500_000));
    assert!(!keypoint_visible(&k, 0, 499_999));
    assert!(keypoint_visible(&k, 16, 300_000));
    assert_eq!(conf_threshold(&vec![], 3), 0);
}

#[test]
fn iou_fractions() {
    let a = Rect { x: 0, y: 0, width: 10, height: 10 };
    let b = Rect { x: 5, y: 5, width: 10, height: 10 };
    assert_eq!(calculate_iou_fraction(&a, &b), (25, 175));
    assert_eq!(calculate_iou_fraction(&a, &a), (100, 100));
    let far = Rect { x: 20, y: 20, width: 5, height: 5 };
    assert_eq!(calculate_iou_fraction(&a, &far), (0, 1));
    let flat = Rect { x: 0, y: 0, width: 0, height: 10 };
    assert_eq!(calculate_iou_fraction(&a, &flat), (0, 1));
    let big = Rect { x: 0, y: 0, width: i32::MAX, height: i32::MAX };
    let m = (i32::MAX as i64) * (i32::MAX as i64);
    assert_eq!(calculate_iou_fraction(&big, &big), (m, m));
}

#[test]
fn stats_of_samples() {
    assert_eq!(calculate_stats(&vec![]), (0, 0, 0));
    assert_eq!(calculate_stats(&vec![30, 10, 20]), (20, 10, 30));
    assert_eq!(calculate_stats(&vec![5, 6]), (5, 5, 6));
    assert_eq!(calculate_stats(&vec![u64::MAX, u64::MAX]), (u64::MAX, u64::MAX, u64::MAX));
}

#[test]
fn stats_drain_the_queue() {
    let q = SegQueue::new();
    q.push(4u64);
    q.push(8u64);
    q.push(3u64);
    assert_eq!(collect_and_calculate_stats(&q), (5, 3, 8));
    assert!(q.is_empty());
    assert_eq!(collect_and_calculate_stats(&q), (0, 0, 0));
    assert!(should_report(20, 10));
    assert!(!should_report(21, 10));
}

fn with_model() -> Args {
    let mut a = Args::new();
    a.model = Some("yolov8m.onnx".to_string());
    a
}

#[test]
fn missing_model_is_config_error() {
    let a = Args::new();
    let e = build_options(a).err().unwrap();
    assert_eq!(e, ConfigError::MissingModel);
    assert_eq!(PipelineError::Config(e).exit_code(), 1);
}

#[test]
fn unknown_task_scale_dtype_rejected() {
    let mut a = with_model();
    a.task = "foo".to_string();
    assert_eq!(build_options(a).err(), Some(ConfigError::UnknownTask));
    let mut b = with_model();
    b.scale = "xl".to_string();
    assert_eq!(validate(&b), Err(ConfigError::UnknownScale));
    let mut c = with_model();
    c.dtype = "fp64".to_string();
    assert_eq!(validate(&c), Err(ConfigError::UnknownDtype));
    for t in ["det", "seg", "pose", "cls", "obb"] {
        let mut d = with_model();
        d.task = t.to_string();
        assert_eq!(validate(&d), Ok(()));
    }
    for (sc, dt) in [("s", "fp16"), ("m", "fp32"), ("l", "int8"), ("x", "auto")] {
        let mut d = with_model();
        d.scale = sc.to_string();
        d.dtype = dt.to_string();
        assert_eq!(validate(&d), Ok(()));
    }
}

#[test]
fn device_must_be_kind_and_index() {
    for ok in ["cpu:0", "cuda:0", "cuda:12", "mps:3"] {
        let mut a = with_model();
        a.device = ok.to_string();
        assert_eq!(validate(&a), Ok(()), "{}", ok);
    }
    for bad in ["cpu", "cpu:", "gpu:0", "cuda:x", "cuda:1a", "mps:-1", ""] {
        let mut a = with_model();
        a.device = bad.to_string();
        assert_eq!(validate(&a), Err(ConfigError::UnknownDevice), "{}", bad);
    }
}

#[test]
fn take_sample_appends_until_full() {
    let mut times: Vec<u64> = vec![7];
    assert!(take_sample(&mut times, Some(9)));
    assert_eq!(times, vec![7, 9]);
    assert!(!take_sample(&mut times, None));
    assert_eq!(times, vec![7, 9]);
    let mut full: Vec<u64> = vec![1; MAX_DRAINED - 1];
    assert!(!take_sample(&mut full, Some(2)));
    assert_eq!(full.len(), MAX_DRAINED);
    assert_eq!(full[MAX_DRAINED - 1], 2);
}

#[test]
fn drain_stops_at_cap_and_leaves_rest() {
    let q = SegQueue::new();
    for i in 0..(MAX_DRAINED as u64 + 5) {
        q.push(i);
    }
    let (_, lo, hi) = collect_and_calculate_stats(&q);
    assert_eq!((lo, hi), (0, MAX_DRAINED as u64 - 1));
    assert_eq!(q.len(), 5);
}
