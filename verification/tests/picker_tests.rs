use z_color_picker::color_picker::{
    clamp_modifying_index, update_point_indices, PointerOutcome, ZColorPickerOptions, ZColorPickerWrapper,
};
use z_color_picker::common::SplineMode;
use z_color_picker::control_point::ControlPoint;
use z_color_picker::error::ZError;
use z_color_picker::preset::{PresetData, PresetEntity};
use z_color_picker::previewer::{PreviewerData, ZPreviewer};

type Cp = ControlPoint<i32, i32>;

fn cp(v: i32) -> Cp {
    ControlPoint::new_simple(v, v)
}

fn values(cps: &[Cp]) -> Vec<i32> {
    cps.iter().map(|c| *c.val()).collect()
}

fn message(e: &ZError) -> String {
    match e {
        ZError::Message(m) => m.clone(),
        _ => panic!("expected a message"),
    }
}

fn preset(name: &str, vals: &[i32], mode: SplineMode) -> PresetEntity<Cp> {
    PresetEntity::new(name, PresetData { spline_mode: mode, control_points: vals.iter().map(|v| cp(*v)).collect() })
}

#[test]
fn options_default() {
    let o: ZColorPickerOptions<Cp> = ZColorPickerOptions::default();
    assert!(!o.is_curve_locked);
    assert!(o.is_hue_middle_interpolated);
    assert!(o.is_insert_right);
    assert!(o.is_window_lock);
    assert_eq!(o.spline_mode, SplineMode::HermiteBezier);
    assert!(o.presets.is_empty());
    assert_eq!(o.preset_selected_index, None);
    assert!(!o.auto_save_presets);
}

#[test]
fn clamp_index_into_list() {
    assert_eq!(clamp_modifying_index(Some(5), 3), Some(2));
    assert_eq!(clamp_modifying_index(Some(1), 3), Some(1));
    assert_eq!(clamp_modifying_index(Some(0), 0), None);
    assert_eq!(clamp_modifying_index(None, 3), None);
}

#[test]
fn spawn_inserts_next_to_edited_point() {
    let mut w: ZColorPickerWrapper<Cp> = ZColorPickerWrapper::new();
    w.spawn_control_point(cp(1));
    assert_eq!(values(&w.control_points), vec![1]);
    assert_eq!(w.last_modifying_point_index, Some(0));
    w.spawn_control_point(cp(2));
    assert_eq!(values(&w.control_points), vec![1, 2]);
    assert_eq!(w.last_modifying_point_index, Some(1));
    w.last_modifying_point_index = Some(0);
    w.spawn_control_point(cp(3));
    assert_eq!(values(&w.control_points), vec![1, 3, 2]);
    assert_eq!(w.last_modifying_point_index, Some(1));
    assert_eq!(w.dragging_index, None);
}

#[test]
fn spawn_inserts_left_when_asked() {
    let mut w: ZColorPickerWrapper<Cp> = ZColorPickerWrapper::new();
    w.options.is_insert_right = false;
    w.spawn_control_point(cp(1));
    w.spawn_control_point(cp(2));
    assert_eq!(values(&w.control_points), vec![2, 1]);
    w.last_modifying_point_index = None;
    w.spawn_control_point(cp(3));
    assert_eq!(values(&w.control_points), vec![3, 2, 1]);
    assert_eq!(w.last_modifying_point_index, Some(0));
}

#[test]
fn remove_selects_previous_point() {
    let mut w: ZColorPickerWrapper<Cp> = ZColorPickerWrapper::new();
    for v in [1, 2, 3, 4] {
        w.control_points.push(cp(v));
    }
    w.remove_control_point(2);
    assert_eq!(values(&w.control_points), vec![1, 2, 4]);
    assert_eq!(w.last_modifying_point_index, Some(1));
    assert_eq!(w.dragging_index, Some(1));
    w.remove_control_point(0);
    assert_eq!(values(&w.control_points), vec![2, 4]);
    assert_eq!(w.last_modifying_point_index, Some(0));
    w.remove_control_point(1);
    assert_eq!(values(&w.control_points), vec![2]);
    assert_eq!(w.last_modifying_point_index, None);
    assert_eq!(w.dragging_index, None);
}

#[test]
fn remove_all_points() {
    let mut w: ZColorPickerWrapper<Cp> = ZColorPickerWrapper::new();
    for v in [1, 2, 3] {
        w.control_points.push(cp(v));
    }
    w.last_modifying_point_index = Some(2);
    w.remove_all_control_points();
    assert!(w.control_points.is_empty());
    assert_eq!(w.last_modifying_point_index, None);
    assert_eq!(w.dragging_index, None);
}

#[test]
fn load_presets_applies_first() {
    let mut w: ZColorPickerWrapper<Cp> = ZColorPickerWrapper::new();
    let startup = vec![cp(9)];
    w.load_presets(vec![preset("a", &[1, 2], SplineMode::Linear), preset("b", &[3], SplineMode::Bezier)], &startup);
    assert_eq!(w.options.presets.len(), 2);
    assert_eq!(w.options.preset_selected_index, Some(0));
    assert_eq!(values(&w.control_points), vec![1, 2]);
    assert_eq!(w.options.spline_mode, SplineMode::Linear);
}

#[test]
fn load_without_presets_uses_startup_points() {
    let mut w: ZColorPickerWrapper<Cp> = ZColorPickerWrapper::new();
    let startup = vec![cp(7), cp(8)];
    w.load_presets(vec![], &startup);
    assert_eq!(values(&w.control_points), vec![7, 8]);
    assert_eq!(w.options.preset_selected_index, None);
}

#[test]
fn apply_selected_preset_copies_points() {
    let mut w: ZColorPickerWrapper<Cp> = ZColorPickerWrapper::new();
    w.options.presets.push(preset("a", &[5, 6, 7], SplineMode::Bezier));
    let e = w.apply_selected_preset().err().unwrap();
    assert_eq!(message(&e), "Apply preset failed. Could not find preset");
    w.options.preset_selected_index = Some(0);
    let p = w.apply_selected_preset().ok().unwrap();
    assert_eq!(p.name, "a");
    assert_eq!(values(&w.control_points), vec![5, 6, 7]);
    assert_eq!(w.options.spline_mode, SplineMode::Bezier);
    w.options.preset_selected_index = Some(3);
    let e = w.apply_selected_preset().err().unwrap();
    assert_eq!(message(&e), "Apply preset failed. Could not find preset");
}

#[test]
fn create_save_and_delete_presets() {
    let mut w: ZColorPickerWrapper<Cp> = ZColorPickerWrapper::new();
    w.control_points = vec![cp(1), cp(2)];
    w.options.spline_mode = SplineMode::Linear;
    let mut saved: Vec<String> = Vec::new();
    let r = w.create_preset(&"first".to_string(), |p: &PresetEntity<Cp>| {
        saved.push(p.name.clone());
        Ok(())
    });
    assert!(r.is_ok());
    assert_eq!(saved, vec!["first".to_string()]);
    assert_eq!(w.options.presets.len(), 1);
    assert_eq!(w.options.preset_selected_index, Some(0));
    assert_eq!(values(&w.options.presets[0].data.control_points), vec![1, 2]);

    let r = w.create_preset(&"first".to_string(), |_p: &PresetEntity<Cp>| Ok(()));
    assert_eq!(message(&r.err().unwrap()), "Preset already exists with that name");
    assert_eq!(w.options.presets.len(), 1);

    w.control_points = vec![cp(3)];
    w.options.spline_mode = SplineMode::Bezier;
    let mut saved_points = Vec::new();
    let r = w.save_selected_preset(|p: &PresetEntity<Cp>| {
        saved_points = values(&p.data.control_points);
        Ok(())
    });
    assert!(r.is_ok());
    assert_eq!(saved_points, vec![3]);
    assert_eq!(w.options.presets[0].data.spline_mode, SplineMode::Bezier);
    assert_eq!(w.options.presets[0].name, "first");

    let r = w.delete_selected_preset(|_p: &PresetEntity<Cp>| Err(ZError::Message("disk".to_string())));
    assert_eq!(message(&r.err().unwrap()), "disk");
    assert!(w.options.presets.is_empty());
    assert_eq!(w.options.preset_selected_index, Some(0));

    w.options.presets.push(preset("x", &[1], SplineMode::Linear));
    let r = w.delete_selected_preset(|p: &PresetEntity<Cp>| {
        assert_eq!(p.name, "x");
        Ok(())
    });
    assert!(r.is_ok());
    assert!(w.options.presets.is_empty());
    assert_eq!(w.options.preset_selected_index, None);

    let r = w.delete_selected_preset(|_p: &PresetEntity<Cp>| Ok(()));
    assert_eq!(message(&r.err().unwrap()), "Selected Preset Delete failed, No preset selected");
    let r = w.save_selected_preset(|_p: &PresetEntity<Cp>| Ok(()));
    assert_eq!(message(&r.err().unwrap()), "Preset Save failed, No preset selected");
}

#[test]
fn pre_draw_update_fills_tangents_in_bezier_mode() {
    let mut w: ZColorPickerWrapper<Cp> = ZColorPickerWrapper::new();
    w.control_points = vec![cp(1), ControlPoint::new(2, 2, [Some(5), None])];
    w.pre_draw_update(&0);
    assert_eq!(*w.control_points[0].tangents(), [None, None]);
    w.options.spline_mode = SplineMode::Bezier;
    w.pre_draw_update(&0);
    assert_eq!(*w.control_points[0].tangents(), [Some(0), Some(0)]);
    assert_eq!(*w.control_points[1].tangents(), [Some(5), Some(0)]);
    assert_eq!(values(&w.control_points), vec![1, 2]);
}

#[test]
fn previewer_resets_sizes_when_count_changes() {
    let mut p: ZPreviewer<i32, f32> = ZPreviewer::new();
    assert!(p.data.control_points.is_empty());
    assert_eq!(p.data.quantize_num_levels, 4);
    p.update(&[1, 2, 3], SplineMode::Linear, 100.0);
    assert_eq!(p.data.control_points, vec![1, 2, 3]);
    assert_eq!(p.data.points_preview_sizes, vec![100.0, 100.0, 100.0]);
    assert_eq!(p.data.spline_mode, SplineMode::Linear);
    p.data.points_preview_sizes[1] = 40.0;
    p.update(&[4, 5, 6], SplineMode::Bezier, 100.0);
    assert_eq!(p.data.points_preview_sizes, vec![100.0, 40.0, 100.0]);
    assert_eq!(p.data.control_points, vec![4, 5, 6]);
    p.update(&[7], SplineMode::Bezier, 100.0);
    assert_eq!(p.data.points_preview_sizes, vec![100.0]);
    p.data.reset_preview_sizes(50.0);
    assert_eq!(p.data.points_preview_sizes, vec![50.0]);

    let d: PreviewerData<i32, f32> = PreviewerData::new(2, &9, 100.0);
    assert_eq!(d.control_points, vec![9, 9]);
    assert_eq!(d.points_preview_sizes, vec![100.0, 100.0]);
    assert_eq!(d.spline_mode, SplineMode::HermiteBezier);
    assert_eq!(d.quantize_num_levels, 4);
}

#[test]
fn new_picker_has_default_settings() {
    let w: ZColorPickerWrapper<Cp> = ZColorPickerWrapper::new();
    assert!(!w.options.is_curve_locked);
    assert!(w.options.is_hue_middle_interpolated);
    assert!(w.options.is_insert_right);
    assert!(w.options.is_window_lock);
    assert_eq!(w.options.spline_mode, SplineMode::HermiteBezier);
    assert!(!w.options.auto_save_presets);
}

#[test]
fn load_presets_keeps_settings_and_right_click() {
    let mut w: ZColorPickerWrapper<Cp> = ZColorPickerWrapper::new();
    w.options.is_insert_right = false;
    w.options.is_curve_locked = true;
    w.control_point_right_clicked = Some(0);
    w.load_presets(vec![preset("a", &[1], SplineMode::Linear)], &vec![cp(9)]);
    assert!(!w.options.is_insert_right);
    assert!(w.options.is_curve_locked);
    assert!(w.options.is_hue_middle_interpolated);
    assert_eq!(w.control_point_right_clicked, Some(0));
    assert_eq!(w.options.spline_mode, SplineMode::Linear);
}

#[test]
fn pointer_selects_and_drags_point() {
    let (mut last, mut dragging, mut right) = (Some(0), None, Some(1));
    let outcome = PointerOutcome {
        right_clicked: None,
        point_dragged: true,
        dragged_by_primary: true,
        selected_index: Some(2),
    };
    update_point_indices(&mut last, &mut dragging, &mut right, &outcome);
    assert_eq!((last, dragging, right), (Some(2), Some(2), None));
}

#[test]
fn pointer_released_ends_drag_and_keeps_edited_point() {
    let (mut last, mut dragging, mut right) = (Some(1), Some(1), None);
    let outcome = PointerOutcome {
        right_clicked: Some(3),
        point_dragged: false,
        dragged_by_primary: false,
        selected_index: None,
    };
    update_point_indices(&mut last, &mut dragging, &mut right, &outcome);
    assert_eq!((last, dragging, right), (Some(1), None, Some(3)));
}

#[test]
fn secondary_drag_keeps_dragged_point() {
    let (mut last, mut dragging, mut right) = (Some(1), Some(0), None);
    let outcome = PointerOutcome {
        right_clicked: None,
        point_dragged: true,
        dragged_by_primary: false,
        selected_index: Some(2),
    };
    update_point_indices(&mut last, &mut dragging, &mut right, &outcome);
    assert_eq!((last, dragging, right), (Some(2), Some(0), None));
}
