use z_color_picker::common::SplineMode;
use z_color_picker::control_point::ControlPoint;
use z_color_picker::error::ZError;
use z_color_picker::preset::{
    collect_loaded_presets, preset_name_from_file_name, preset_name_taken, PresetData,
    PresetEntity, PresetHandler,
};

type Cp = ControlPoint<i32, i32>;

fn cp(v: i32) -> Cp {
    ControlPoint::new_simple(v, 0)
}

fn values(cps: &[Cp]) -> Vec<i32> {
    cps.iter().map(|c| *c.val()).collect()
}

fn message(e: &ZError) -> String {
    match e {
        ZError::Message(m) => m.clone(),
        _ => panic!("expected a message"),
    }
}

fn preset(name: &str, vals: &[i32]) -> PresetEntity<Cp> {
    PresetEntity::new(name, PresetData::from((vals.iter().map(|v| cp(*v)).collect(), SplineMode::Linear)))
}

#[test]
fn preset_entity_apply_and_into() {
    let p = preset("p", &[1, 2]);
    let mut cps = vec![cp(9)];
    let mut mode = SplineMode::Bezier;
    p.apply(&mut cps, &mut mode);
    assert_eq!(values(&cps), vec![1, 2]);
    assert_eq!(mode, SplineMode::Linear);
    let (points, m) = p.into();
    assert_eq!(values(&points), vec![1, 2]);
    assert_eq!(m, SplineMode::Linear);
    let d = PresetEntity::make_preset_data(&vec![cp(4)], &SplineMode::HermiteBezier);
    assert_eq!(values(&d.control_points), vec![4]);
    assert_eq!(d.spline_mode, SplineMode::HermiteBezier);
}

#[test]
fn name_taken() {
    let presets = vec![preset("a", &[]), preset("b", &[])];
    assert!(preset_name_taken(&presets, &"b".to_string()));
    assert!(!preset_name_taken(&presets, &"c".to_string()));
}

#[test]
fn collect_keeps_loaded_presets() {
    let r = collect_loaded_presets(vec![
        Ok(preset("a", &[1])),
        Err(ZError::Message("bad".to_string())),
        Ok(preset("b", &[2])),
    ]);
    let names: Vec<String> = r.ok().unwrap().iter().map(|p| p.name.clone()).collect();
    assert_eq!(names, vec!["a", "b"]);
    let r = collect_loaded_presets::<Cp>(vec![Err(ZError::Message("bad".to_string()))]);
    assert_eq!(message(&r.err().unwrap()), "Did not manage to load any presets");
    let r = collect_loaded_presets::<Cp>(vec![]);
    assert!(r.is_err());
}

#[test]
fn file_names_of_presets() {
    assert_eq!(preset_name_from_file_name("warm.json"), Some("warm".to_string()));
    assert_eq!(preset_name_from_file_name(".json"), Some("".to_string()));
    assert_eq!(preset_name_from_file_name("été.json"), Some("été".to_string()));
    assert_eq!(preset_name_from_file_name("warm.jsn"), None);
    assert_eq!(preset_name_from_file_name("json"), None);
}

#[test]
fn handler_from_loaded() {
    let h = PresetHandler::from_loaded(Ok(vec![preset("a", &[])]));
    assert_eq!(h.presets().len(), 1);
    assert_eq!(h.preset_selected_index, None);
    assert!(!h.auto_save_presets);
    let h = PresetHandler::<Cp>::from_loaded(Err(ZError::Message("x".to_string())));
    assert!(h.presets.is_empty());
}

#[test]
fn handler_create_apply_save_delete() {
    let mut h = PresetHandler::<Cp>::from_loaded(Ok(vec![]));
    let r = h.create_preset(&"one".to_string(), &vec![cp(1), cp(2)], &SplineMode::Bezier, |p: &PresetEntity<Cp>| {
        assert_eq!(p.name, "one");
        Ok(())
    });
    assert!(r.is_ok());
    assert_eq!(h.preset_selected_index, Some(0));
    let r = h.create_preset(&"one".to_string(), &vec![], &SplineMode::Bezier, |_p: &PresetEntity<Cp>| Ok(()));
    assert_eq!(message(&r.err().unwrap()), "Preset already exists with that name");

    let mut cps = vec![];
    let mut mode = SplineMode::Linear;
    h.apply_selected_preset(&mut cps, &mut mode);
    assert_eq!(values(&cps), vec![1, 2]);
    assert_eq!(mode, SplineMode::Bezier);

    let r = h.save_selected_preset(|p: &PresetEntity<Cp>| {
        assert_eq!(values(&p.data.control_points), vec![1, 2]);
        Err(ZError::Message("full".to_string()))
    });
    assert_eq!(message(&r.err().unwrap()), "full");

    h.presets_mut().push(preset("two", &[3]));
    let r = h.delete_selected_preset(|p: &PresetEntity<Cp>| {
        assert_eq!(p.name, "one");
        Ok(())
    });
    assert!(r.is_ok());
    assert_eq!(h.presets.len(), 1);
    assert_eq!(h.preset_selected_index, None);
    let r = h.save_selected_preset(|_p: &PresetEntity<Cp>| Ok(()));
    assert_eq!(message(&r.err().unwrap()), "Preset Save failed, No preset selected");
    let r = h.delete_selected_preset(|_p: &PresetEntity<Cp>| Ok(()));
    assert_eq!(message(&r.err().unwrap()), "Selected Preset Delete failed, No preset selected");
}

#[test]
fn handler_apply_out_of_range_keeps_points() {
    let mut h = PresetHandler::<Cp>::from_loaded(Ok(vec![preset("a", &[1])]));
    h.preset_selected_index = Some(4);
    let mut cps = vec![cp(8)];
    let mut mode = SplineMode::Polynomial;
    h.apply_selected_preset(&mut cps, &mut mode);
    assert_eq!(values(&cps), vec![8]);
    assert_eq!(mode, SplineMode::Polynomial);
}

#[test]
fn handler_init_presets() {
    let mut h = PresetHandler::<Cp>::from_loaded(Ok(vec![]));
    assert!(h.init_presets(Ok(vec![preset("z", &[])])).is_ok());
    assert_eq!(h.presets.len(), 1);
    assert!(h.init_presets(Err(ZError::Message("no dir".to_string()))).is_err());
    assert_eq!(h.presets.len(), 1);
}
