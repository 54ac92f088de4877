//! The options window: its open state, and what its buttons and preset list do to
//! the options and the control points.
use vstd::prelude::*;
use crate::color_picker::ZColorPickerOptions;
use crate::control_point::ControlPoint;
use crate::preset::{clones, entity_cloned, PresetData, PresetEntity};

verus! {

/// `emath::Pos2`, a screen position, carried through unchanged.
#[verifier::external_type_specification]
#[verifier::external_body]
pub struct ExPos2(emath::Pos2);

/// The preset the window asks the picker to apply, if any.
#[derive(Debug)]
pub struct PresetDrawResult<C> {
    pub should_apply: Option<PresetEntity<C>>,
}

impl<C> Default for PresetDrawResult<C> {
    fn default() -> (res: Self)
        ensures
            res.should_apply is None,
    {
        PresetDrawResult { should_apply: None }
    }
}

/// What one frame of the options window asks of the picker.
#[derive(Debug)]
pub struct WindowZColorPickerOptionsDrawResult<C> {
    pub preset_result: PresetDrawResult<C>,
}

impl<C> Default for WindowZColorPickerOptionsDrawResult<C> {
    fn default() -> (res: Self)
        ensures
            res.preset_result.should_apply is None,
    {
        WindowZColorPickerOptionsDrawResult { preset_result: PresetDrawResult::default() }
    }
}

/// The options window and its "create preset" dialog.
#[derive(Debug)]
pub struct WindowZColorPickerOptions {
    pub open: bool,
    pub position: emath::Pos2,
    pub new_preset_is_open: bool,
    pub new_preset_window_text: String,
}

impl Clone for WindowZColorPickerOptions {
    /// The same window state; the position is copied.
    fn clone(&self) -> (res: Self)
        ensures
            res == *self,
    {
        WindowZColorPickerOptions {
            open: self.open,
            position: self.position,
            new_preset_is_open: self.new_preset_is_open,
            new_preset_window_text: self.new_preset_window_text.clone(),
        }
    }
}

/// What the user did in the options window.
#[derive(Debug, PartialEq, Eq, Structural, Clone, Copy)]
pub enum OptionsWindowEvent {
    /// "Flip": reverse the curve.
    FlipControlPoints,
    /// An entry of the preset list: 0 is "<NEW>", `i + 1` is preset `i`.
    PresetChosen(usize),
    /// "<None>" in the preset list.
    PresetCleared,
    /// "Save": store the current curve in the selected preset.
    SavePreset,
    /// "Delete": remove the selected preset.
    DeletePreset,
    /// "Create" in the dialog: add a preset named by the dialog's text.
    CreatePreset,
    /// The dialog was closed.
    CreateWindowClosed,
}

/// The curve reversed, each point with its tangents exchanged.
pub open spec fn flipped_curve<V, T>(cps: Seq<ControlPoint<V, T>>) -> Seq<ControlPoint<V, T>> {
    Seq::new(cps.len(), |i: int| cps[cps.len() - 1 - i].flipped())
}

/// Reverses the curve: the points in reverse order, each with its tangents exchanged.
pub fn flip_control_points<V, T>(control_points: &mut Vec<ControlPoint<V, T>>)
    ensures
        final(control_points)@ == flipped_curve(old(control_points)@),
        final(control_points)@.len() == old(control_points)@.len(),
        forall|i: int|
            0 <= i < old(control_points)@.len() ==> #[trigger] final(control_points)@[i] == old(
                control_points,
            )@[old(control_points)@.len() - 1 - i].flipped(),
{
    let ghost orig = control_points@;
    let n = control_points.len();
    let mut out: Vec<ControlPoint<V, T>> = Vec::new();
    while control_points.len() > 0
        invariant
            n == orig.len(),
            control_points@ == orig.take(n - out@.len()),
            out@.len() <= n,
            forall|i: int| 0 <= i < out@.len() ==> #[trigger] out@[i] == orig[n - 1 - i].flipped(),
        decreases control_points@.len(),
    {
        let mut cp = control_points.pop().unwrap();
        cp.flip_tangents();
        out.push(cp);
        assert(control_points@ =~= orig.take(n - out@.len()));
    }
    *control_points = out;
    assert(control_points@ =~= flipped_curve(orig));
}

/// The flipped curve has as many points, and point `i` is point `n - 1 - i` of the curve
/// with its tangents exchanged: the whole curve reversed, not only its ends.
pub proof fn lemma_flipped_curve_reverses<V, T>(cps: Seq<ControlPoint<V, T>>)
    ensures
        flipped_curve(cps).len() == cps.len(),
        forall|i: int|
            0 <= i < cps.len() ==> {
                let p = #[trigger] flipped_curve(cps)[i];
                let q = cps[cps.len() - 1 - i];
                &&& p.spec_storage().val == q.spec_storage().val
                &&& p.spec_storage().t == q.spec_storage().t
                &&& p.spec_storage().tangents[0] == q.spec_storage().tangents[1]
                &&& p.spec_storage().tangents[1] == q.spec_storage().tangents[0]
                &&& (p is ControlPointSimple <==> q is ControlPointSimple)
            },
{
    assert forall|i: int| 0 <= i < cps.len() implies {
        let p = #[trigger] flipped_curve(cps)[i];
        let q = cps[cps.len() - 1 - i];
        &&& p.spec_storage().val == q.spec_storage().val
        &&& p.spec_storage().t == q.spec_storage().t
        &&& p.spec_storage().tangents[0] == q.spec_storage().tangents[1]
        &&& p.spec_storage().tangents[1] == q.spec_storage().tangents[0]
        &&& (p is ControlPointSimple <==> q is ControlPointSimple)
    } by {}
}

/// Reversing the curve twice gives it back.
pub proof fn lemma_flip_curve_twice<V, T>(cps: Seq<ControlPoint<V, T>>)
    ensures
        flipped_curve(flipped_curve(cps)) == cps,
{
    let f = flipped_curve(flipped_curve(cps));
    assert forall|i: int| 0 <= i < cps.len() implies #[trigger] f[i] == cps[i] by {
        crate::control_point::lemma_flipped_twice(cps[i]);
    }
    assert(f =~= cps);
}

impl WindowZColorPickerOptions {
    /// A closed window at the given position, its dialog closed and empty.
    pub fn new(window_position: emath::Pos2) -> (res: Self)
        ensures
            !res.open,
            res.position == window_position,
            !res.new_preset_is_open,
            res.new_preset_window_text@.len() == 0,
    {
        WindowZColorPickerOptions {
            open: false,
            position: window_position,
            new_preset_window_text: String::new(),
            new_preset_is_open: false,
        }
    }

    /// Per-frame update; the window has nothing to do.
    pub fn update(&mut self)
        ensures
            *final(self) == *old(self),
    {
    }

    pub fn title(&self) -> (res: &'static str)
        ensures
            res@ == "ZColorPicker Options"@,
    {
        "ZColorPicker Options"
    }

    pub fn is_open(&self) -> (res: bool)
        ensures
            res == self.open,
    {
        self.open
    }

    pub fn close(&mut self)
        ensures
            *final(self) == (WindowZColorPickerOptions { open: false, ..*old(self) }),
    {
        self.open = false;
    }

    pub fn open(&mut self)
        ensures
            *final(self) == (WindowZColorPickerOptions { open: true, ..*old(self) }),
    {
        self.open = true;
    }

    /// Does what the user asked in the window to the options and the control points, and
    /// says which preset the picker should apply.
    pub fn apply_event<V: Clone, T: Clone>(
        &mut self,
        event: OptionsWindowEvent,
        options: &mut ZColorPickerOptions<ControlPoint<V, T>>,
        control_points: &mut Vec<ControlPoint<V, T>>,
    ) -> (res: WindowZColorPickerOptionsDrawResult<ControlPoint<V, T>>)
        requires
            event is SavePreset || event is DeletePreset ==> old(options).wf(),
            event matches OptionsWindowEvent::PresetChosen(i) ==> i <= old(options).presets@.len(),
        ensures
            old(options).wf() ==> final(options).wf(),
            final(options).same_settings(*old(options)),
            final(self).open == old(self).open,
            final(self).position == old(self).position,
            match event {
                OptionsWindowEvent::FlipControlPoints => {
                    &&& final(control_points)@ == flipped_curve(old(control_points)@)
                    &&& final(control_points)@.len() == old(control_points)@.len()
                    &&& forall|i: int|
                        0 <= i < old(control_points)@.len() ==> #[trigger] final(control_points)@[i]
                            == old(control_points)@[old(control_points)@.len() - 1 - i].flipped()
                    &&& *final(options) == *old(options)
                    &&& *final(self) == *old(self)
                    &&& res.preset_result.should_apply is None
                },
                OptionsWindowEvent::PresetChosen(i) => {
                    &&& *final(control_points) == *old(control_points)
                    &&& final(options).presets == old(options).presets
                    &&& if i == 0 {
                        &&& final(options).preset_selected_index == old(options).preset_selected_index
                        &&& final(self).new_preset_is_open
                        &&& final(self).new_preset_window_text@.len() == 0
                        &&& res.preset_result.should_apply is None
                    } else {
                        &&& final(options).preset_selected_index == Some((i - 1) as usize)
                        &&& *final(self) == *old(self)
                        &&& res.preset_result.should_apply matches Some(p) && entity_cloned(
                            old(options).presets@[i - 1],
                            p,
                        )
                    }
                },
                OptionsWindowEvent::PresetCleared => {
                    &&& *final(control_points) == *old(control_points)
                    &&& final(options).presets == old(options).presets
                    &&& final(options).preset_selected_index is None
                    &&& *final(self) == *old(self)
                    &&& res.preset_result.should_apply is None
                },
                OptionsWindowEvent::SavePreset => {
                    &&& *final(control_points) == *old(control_points)
                    &&& final(options).preset_selected_index == old(options).preset_selected_index
                    &&& *final(self) == *old(self)
                    &&& res.preset_result.should_apply is None
                    &&& match old(options).preset_selected_index {
                        Some(s) => {
                            let q = final(options).presets@[s as int];
                            &&& final(options).presets@ == old(options).presets@.update(s as int, q)
                            &&& q.name == old(options).presets@[s as int].name
                            &&& q.data.spline_mode == old(options).spline_mode
                            &&& clones(old(control_points)@, q.data.control_points@)
                        },
                        None => final(options).presets == old(options).presets,
                    }
                },
                OptionsWindowEvent::DeletePreset => {
                    &&& *final(control_points) == *old(control_points)
                    &&& *final(self) == *old(self)
                    &&& res.preset_result.should_apply is None
                    &&& match old(options).preset_selected_index {
                        Some(s) => {
                            &&& final(options).presets@ == old(options).presets@.remove(s as int)
                            &&& final(options).preset_selected_index is None
                        },
                        None => *final(options) == *old(options),
                    }
                },
                OptionsWindowEvent::CreatePreset => {
                    let n = old(options).presets@.len();
                    let q = final(options).presets@[n as int];
                    &&& *final(control_points) == *old(control_points)
                    &&& final(options).presets@ == old(options).presets@.push(q)
                    &&& q.name@ == old(self).new_preset_window_text@
                    &&& q.data.spline_mode == old(options).spline_mode
                    &&& clones(old(control_points)@, q.data.control_points@)
                    &&& final(options).preset_selected_index == old(options).preset_selected_index
                    &&& !final(self).new_preset_is_open
                    &&& final(self).new_preset_window_text == old(self).new_preset_window_text
                    &&& res.preset_result.should_apply is None
                },
                OptionsWindowEvent::CreateWindowClosed => {
                    &&& *final(control_points) == *old(control_points)
                    &&& *final(options) == *old(options)
                    &&& !final(self).new_preset_is_open
                    &&& final(self).new_preset_window_text == old(self).new_preset_window_text
                    &&& res.preset_result.should_apply is None
                },
            },
    {
        let mut draw_result = WindowZColorPickerOptionsDrawResult::default();
        match event {
            OptionsWindowEvent::FlipControlPoints => {
                flip_control_points(control_points);
            },
            OptionsWindowEvent::PresetChosen(i) => {
                if i == 0 {
                    self.new_preset_is_open = true;
                    self.new_preset_window_text = String::new();
                } else {
                    options.preset_selected_index = Some(i - 1);
                    draw_result.preset_result.should_apply = Some(options.presets[i - 1].clone());
                }
            },
            OptionsWindowEvent::PresetCleared => {
                options.preset_selected_index = None;
            },
            OptionsWindowEvent::SavePreset => {
                if let Some(s) = options.preset_selected_index {
                    let mut preset = options.presets.remove(s);
                    preset.data = PresetData {
                        spline_mode: options.spline_mode,
                        control_points: control_points.clone(),
                    };
                    options.presets.insert(s, preset);
                    proof {
                        assert(options.presets@ =~= old(options).presets@.update(
                            s as int,
                            options.presets@[s as int],
                        ));
                    }
                }
            },
            OptionsWindowEvent::DeletePreset => {
                if let Some(s) = options.preset_selected_index {
                    options.presets.remove(s);
                    options.preset_selected_index = None;
                }
            },
            OptionsWindowEvent::CreatePreset => {
                self.new_preset_is_open = false;
                let new_preset = PresetEntity {
                    name: self.new_preset_window_text.clone(),
                    data: PresetData {
                        spline_mode: options.spline_mode,
                        control_points: control_points.clone(),
                    },
                };
                options.presets.push(new_preset);
            },
            OptionsWindowEvent::CreateWindowClosed => {
                self.new_preset_is_open = false;
            },
        }
        draw_result
    }
}

/// The text shown for the selected preset: its name (the last preset's, past the end of
/// the list), or nothing when none is selected.
pub fn selected_preset_text<C>(options: &ZColorPickerOptions<C>) -> (res: String)
    requires
        options.preset_selected_index is Some ==> options.presets@.len() > 0,
    ensures
        match options.preset_selected_index {
            Some(i) => res@ == options.presets@[(if i < options.presets@.len() {
                i as int
            } else {
                options.presets@.len() - 1
            })].name@,
            None => res@.len() == 0,
        },
{
    match options.preset_selected_index {
        Some(i) => {
            let last = options.presets.len() - 1;
            let k = if i < last {
                i
            } else {
                last
            };
            options.presets[k].name.clone()
        },
        None => String::new(),
    }
}

} // verus!
