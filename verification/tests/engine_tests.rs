use canvas_core::canvas::{
    get_engine, get_engine_status, get_height, get_width, new, set_engine, set_height, set_width,
    Canvas,
};
use canvas_core::engine::{from_engine, to_engine, EngineStatus, Environment, RenderingEngine};
use canvas_core::values::Scalar;

const WITH_GPU: Environment = Environment { gpu_usable: true };
const WITHOUT_GPU: Environment = Environment { gpu_usable: false };

#[test]
fn default_engine_is_the_best_available() {
    assert_eq!(RenderingEngine::default(WITH_GPU), RenderingEngine::Gpu);
    assert_eq!(RenderingEngine::default(WITHOUT_GPU), RenderingEngine::Cpu);
}

#[test]
fn default_engine_is_always_selectable() {
    assert!(RenderingEngine::default(WITH_GPU).selectable(WITH_GPU));
    assert!(RenderingEngine::default(WITHOUT_GPU).selectable(WITHOUT_GPU));
}

#[test]
fn gpu_is_selectable_only_with_a_device() {
    assert!(RenderingEngine::Gpu.selectable(WITH_GPU));
    assert!(!RenderingEngine::Gpu.selectable(WITHOUT_GPU));
    assert!(RenderingEngine::Cpu.selectable(WITH_GPU));
    assert!(RenderingEngine::Cpu.selectable(WITHOUT_GPU));
}

#[test]
fn engine_names_resolve() {
    assert_eq!(to_engine("cpu"), Some(RenderingEngine::Cpu));
    assert_eq!(to_engine("gpu"), Some(RenderingEngine::Gpu));
    assert_eq!(to_engine(""), None);
    assert_eq!(to_engine("cp"), None);
    assert_eq!(to_engine("cpus"), None);
    assert_eq!(to_engine("GPU"), None);
    assert_eq!(to_engine("vulkan"), None);
}

#[test]
fn engine_names_round_trip() {
    assert_eq!(from_engine(RenderingEngine::Cpu), "cpu");
    assert_eq!(from_engine(RenderingEngine::Gpu), "gpu");
    assert_eq!(to_engine(&from_engine(RenderingEngine::Cpu)), Some(RenderingEngine::Cpu));
    assert_eq!(to_engine(&from_engine(RenderingEngine::Gpu)), Some(RenderingEngine::Gpu));
}

#[test]
fn status_reports_availability_and_fallback() {
    assert_eq!(
        RenderingEngine::Gpu.status(WITH_GPU),
        EngineStatus { engine: RenderingEngine::Gpu, available: true, fallback: false }
    );
    assert_eq!(
        RenderingEngine::Gpu.status(WITHOUT_GPU),
        EngineStatus { engine: RenderingEngine::Gpu, available: false, fallback: false }
    );
    assert_eq!(
        RenderingEngine::Cpu.status(WITH_GPU),
        EngineStatus { engine: RenderingEngine::Cpu, available: true, fallback: false }
    );
    assert_eq!(
        RenderingEngine::Cpu.status(WITHOUT_GPU),
        EngineStatus { engine: RenderingEngine::Cpu, available: true, fallback: true }
    );
}

#[test]
fn status_words() {
    assert_eq!(
        RenderingEngine::Gpu.status(WITH_GPU).describe(),
        "gpu: hardware-accelerated rendering is active"
    );
    assert_eq!(
        RenderingEngine::Gpu.status(WITHOUT_GPU).describe(),
        "gpu: no usable graphics device, rendering is unavailable"
    );
    assert_eq!(
        RenderingEngine::Cpu.status(WITH_GPU).describe(),
        "cpu: software rendering is active"
    );
    assert_eq!(
        RenderingEngine::Cpu.status(WITHOUT_GPU).describe(),
        "cpu: software rendering is active, no usable graphics device was found"
    );
}

#[test]
fn new_canvas_is_300_by_150() {
    let canvas = Canvas::new();
    assert_eq!(f32::from_bits(canvas.width.bits), 300.0);
    assert_eq!(f32::from_bits(canvas.height.bits), 150.0);
    let other = new();
    assert_eq!(canvas, other);
    assert_eq!(f32::from_bits(get_width(&other).bits), 300.0);
    assert_eq!(f32::from_bits(get_height(&other).bits), 150.0);
}

#[test]
fn size_setters_store_any_number() {
    let mut canvas = Canvas::new();
    set_width(&mut canvas, Scalar { bits: 1024.5f32.to_bits() });
    assert_eq!(f32::from_bits(get_width(&canvas).bits), 1024.5);
    assert_eq!(f32::from_bits(get_height(&canvas).bits), 150.0);
    set_height(&mut canvas, Scalar { bits: (-3.0f32).to_bits() });
    assert_eq!(f32::from_bits(get_height(&canvas).bits), -3.0);
    assert_eq!(f32::from_bits(get_width(&canvas).bits), 1024.5);
    set_width(&mut canvas, Scalar { bits: f32::NAN.to_bits() });
    assert!(f32::from_bits(get_width(&canvas).bits).is_nan());
}

#[test]
fn size_setters_leave_the_engine() {
    let mut canvas = Canvas::new();
    assert_eq!(canvas.engine(WITH_GPU), RenderingEngine::Gpu);
    set_width(&mut canvas, Scalar { bits: 10.0f32.to_bits() });
    set_height(&mut canvas, Scalar { bits: 20.0f32.to_bits() });
    assert_eq!(canvas.engine(WITHOUT_GPU), RenderingEngine::Gpu);
}

#[test]
fn engine_is_created_once_and_kept() {
    let mut canvas = Canvas::new();
    let first = canvas.engine(WITHOUT_GPU);
    assert_eq!(first, RenderingEngine::Cpu);
    let snapshot = canvas.clone();
    let second = canvas.engine(WITH_GPU);
    assert_eq!(second, first);
    assert_eq!(canvas, snapshot);
}

#[test]
fn unselectable_engine_is_silently_ignored() {
    let mut canvas = Canvas::new();
    assert_eq!(canvas.engine(WITHOUT_GPU), RenderingEngine::Cpu);
    let before = canvas.clone();
    set_engine(&mut canvas, Some("gpu"), WITHOUT_GPU);
    assert_eq!(canvas, before);
    assert_eq!(get_engine(&mut canvas, WITHOUT_GPU), "cpu");
}

#[test]
fn unknown_or_missing_engine_name_is_ignored() {
    let mut canvas = Canvas::new();
    let before = canvas.clone();
    set_engine(&mut canvas, Some("metal"), WITH_GPU);
    assert_eq!(canvas, before);
    set_engine(&mut canvas, None, WITH_GPU);
    assert_eq!(canvas, before);
    assert_eq!(get_engine(&mut canvas, WITH_GPU), "gpu");
    let held = canvas.clone();
    set_engine(&mut canvas, Some(""), WITH_GPU);
    assert_eq!(canvas, held);
}

#[test]
fn selectable_engine_is_installed() {
    let mut canvas = Canvas::new();
    assert_eq!(get_engine(&mut canvas, WITH_GPU), "gpu");
    set_engine(&mut canvas, Some("cpu"), WITH_GPU);
    assert_eq!(get_engine(&mut canvas, WITH_GPU), "cpu");
    set_engine(&mut canvas, Some("gpu"), WITH_GPU);
    assert_eq!(get_engine(&mut canvas, WITH_GPU), "gpu");
    assert_eq!(f32::from_bits(canvas.width.bits), 300.0);
    assert_eq!(f32::from_bits(canvas.height.bits), 150.0);
}

#[test]
fn set_engine_before_first_use_installs_without_default() {
    let mut canvas = Canvas::new();
    set_engine(&mut canvas, Some("cpu"), WITH_GPU);
    assert_eq!(canvas.engine(WITH_GPU), RenderingEngine::Cpu);
}

#[test]
fn engine_status_materializes_the_engine() {
    let mut canvas = Canvas::new();
    assert_eq!(
        get_engine_status(&mut canvas, WITHOUT_GPU),
        "cpu: software rendering is active, no usable graphics device was found"
    );
    assert_eq!(canvas.engine(WITH_GPU), RenderingEngine::Cpu);
    assert_eq!(get_engine_status(&mut canvas, WITH_GPU), "cpu: software rendering is active");

    let mut other = Canvas::new();
    assert_eq!(
        get_engine_status(&mut other, WITH_GPU),
        "gpu: hardware-accelerated rendering is active"
    );
    assert_eq!(
        get_engine_status(&mut other, WITHOUT_GPU),
        "gpu: no usable graphics device, rendering is unavailable"
    );
}
