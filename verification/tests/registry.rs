use rust_slurp::buffer::{BufferAction, FrameBuffer};
use rust_slurp::error::Error;
use rust_slurp::geometry::Origin;
use rust_slurp::registry::{HandleKind, Output, OutputHandles, OutputRegistry, Size};

fn handles_from(base: u32) -> OutputHandles {
    OutputHandles { output: base, xdg_output: base + 1, surface: base + 2, layer_surface: base + 3 }
}

fn registry_of_two() -> OutputRegistry {
    let mut registry = OutputRegistry::new();
    registry.register(handles_from(10));
    registry.register(handles_from(20));
    registry
}

#[test]
fn a_new_registry_is_empty() {
    let registry = OutputRegistry::new();
    assert_eq!(registry.len(), 0);
    assert_eq!(registry.all(), Vec::<usize>::new());
    assert_eq!(registry.find_by_surface(0), None);
}

#[test]
fn register_returns_consecutive_identifiers() {
    let mut registry = OutputRegistry::new();
    assert_eq!(registry.register(handles_from(10)), 0);
    assert_eq!(registry.register(handles_from(20)), 1);
    assert_eq!(registry.register(handles_from(30)), 2);
    assert_eq!(registry.len(), 3);
    assert_eq!(registry.all(), vec![0, 1, 2]);
}

#[test]
fn a_registered_output_starts_at_the_origin_without_buffer() {
    let registry = registry_of_two();
    assert_eq!(
        registry.get(1),
        Output {
            handles: handles_from(20),
            logical_pos: Origin { x: 0, y: 0 },
            size: Size { width: 0, height: 0 },
            buffer: None,
        }
    );
}

#[test]
fn outputs_are_found_by_each_of_their_objects() {
    let registry = registry_of_two();
    assert_eq!(registry.find_by_output(10), Some(0));
    assert_eq!(registry.find_by_xdg_output(11), Some(0));
    assert_eq!(registry.find_by_surface(12), Some(0));
    assert_eq!(registry.find_by_layer_surface(13), Some(0));
    assert_eq!(registry.find_by_output(20), Some(1));
    assert_eq!(registry.find_by_xdg_output(21), Some(1));
    assert_eq!(registry.find_by_surface(22), Some(1));
    assert_eq!(registry.find_by_layer_surface(23), Some(1));
}

#[test]
fn a_lookup_tells_the_kinds_of_object_apart() {
    let registry = registry_of_two();
    assert_eq!(registry.find_by_surface(10), None);
    assert_eq!(registry.find_by_output(12), None);
    assert_eq!(registry.find_by_layer_surface(21), None);
    assert_eq!(registry.find_by_xdg_output(23), None);
    assert_eq!(registry.find_by_surface(99), None);
}

#[test]
fn a_lookup_gives_the_first_match() {
    let mut registry = registry_of_two();
    registry.register(handles_from(10));
    assert_eq!(registry.find_by_surface(12), Some(0));
}

#[test]
fn handle_picks_the_object_of_a_kind() {
    let h = handles_from(40);
    assert_eq!(h.handle(HandleKind::Output), 40);
    assert_eq!(h.handle(HandleKind::XdgOutput), 41);
    assert_eq!(h.handle(HandleKind::Surface), 42);
    assert_eq!(h.handle(HandleKind::LayerSurface), 43);
}

#[test]
fn geometry_and_size_arrive_in_any_order() {
    let mut first = registry_of_two();
    first.update_geometry(1, Origin { x: 1920, y: -40 });
    first.update_size(1, Size { width: 2560, height: 1440 });
    let mut second = registry_of_two();
    second.update_size(1, Size { width: 2560, height: 1440 });
    second.update_geometry(1, Origin { x: 1920, y: -40 });
    let expected = Output {
        handles: handles_from(20),
        logical_pos: Origin { x: 1920, y: -40 },
        size: Size { width: 2560, height: 1440 },
        buffer: None,
    };
    assert_eq!(first.get(1), expected);
    assert_eq!(second.get(1), expected);
    assert_eq!(first.get(0).logical_pos, Origin { x: 0, y: 0 });
    assert_eq!(first.get(0).size, Size { width: 0, height: 0 });
}

#[test]
fn ensure_buffer_twice_with_the_same_size_keeps_the_buffer() {
    let mut registry = registry_of_two();
    let buffer = FrameBuffer { width: 800, height: 600, stride: 3200, size: 1_920_000 };
    assert_eq!(registry.ensure_buffer(0, 800, 600, Some(3200)), Ok(BufferAction::Allocate(buffer)));
    assert_eq!(registry.get(0).buffer, Some(buffer));
    assert_eq!(registry.ensure_buffer(0, 800, 600, Some(3200)), Ok(BufferAction::Reuse(buffer)));
    assert_eq!(registry.get(0).buffer, Some(buffer));
    assert_eq!(registry.get(1).buffer, None);
}

#[test]
fn ensure_buffer_with_another_size_replaces_the_buffer() {
    let mut registry = registry_of_two();
    let small = FrameBuffer { width: 800, height: 600, stride: 3200, size: 1_920_000 };
    let large = FrameBuffer { width: 1024, height: 768, stride: 4096, size: 3_145_728 };
    assert_eq!(registry.ensure_buffer(1, 800, 600, Some(3200)), Ok(BufferAction::Allocate(small)));
    assert_eq!(registry.ensure_buffer(1, 1024, 768, Some(4096)), Ok(BufferAction::Allocate(large)));
    assert_eq!(registry.get(1).buffer, Some(large));
    assert_eq!(registry.ensure_buffer(1, 800, 600, Some(3200)), Ok(BufferAction::Allocate(small)));
    assert_eq!(registry.get(1).buffer, Some(small));
}

#[test]
fn a_refused_buffer_leaves_the_output_as_it_was() {
    let mut registry = registry_of_two();
    let buffer = FrameBuffer { width: 800, height: 600, stride: 3200, size: 1_920_000 };
    registry.ensure_buffer(0, 800, 600, Some(3200)).unwrap();
    assert_eq!(registry.ensure_buffer(0, 801, 600, None), Err(Error::StrideUnavailable));
    assert_eq!(registry.ensure_buffer(0, 801, 600, Some(3200)), Err(Error::StrideTooSmall));
    assert_eq!(registry.ensure_buffer(0, u32::MAX, 600, Some(3200)), Err(Error::DimensionTooLarge));
    assert_eq!(registry.ensure_buffer(0, 65536, 65536, Some(262144)), Err(Error::SizeTooLarge));
    assert_eq!(registry.get(0).buffer, Some(buffer));
}
