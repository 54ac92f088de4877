//! The picker's state: its control points, which of them is being edited, its
//! options and its presets.
use vstd::prelude::*;
use crate::common::SplineMode;
use crate::control_point::{tangents_filled, ControlPoint};
use crate::error::{is_message, ZError};
use crate::preset::{clones, entity_cloned, has_preset_named, preset_name_taken, PresetData, PresetEntity};

verus! {

/// The picker's settings and its presets.
#[derive(Debug)]
pub struct ZColorPickerOptions<C> {
    pub is_curve_locked: bool,
    pub is_hue_middle_interpolated: bool,
    pub is_insert_right: bool,
    pub is_window_lock: bool,
    pub spline_mode: SplineMode,
    pub presets: Vec<PresetEntity<C>>,
    pub preset_selected_index: Option<usize>,
    pub auto_save_presets: bool,
}

impl<C> ZColorPickerOptions<C> {
    /// The selection, if any, names a preset in the list.
    pub open spec fn wf(self) -> bool {
        self.preset_selected_index matches Some(i) ==> i < self.presets@.len()
    }

    /// Both have the same settings, the spline mode aside; their presets and selection
    /// may differ.
    pub open spec fn same_settings_but_spline_mode(self, other: Self) -> bool {
        &&& self.is_curve_locked == other.is_curve_locked
        &&& self.is_hue_middle_interpolated == other.is_hue_middle_interpolated
        &&& self.is_insert_right == other.is_insert_right
        &&& self.is_window_lock == other.is_window_lock
        &&& self.auto_save_presets == other.auto_save_presets
    }

    /// Both have the same settings; their presets and selection may differ.
    pub open spec fn same_settings(self, other: Self) -> bool {
        &&& self.same_settings_but_spline_mode(other)
        &&& self.spline_mode == other.spline_mode
    }

    /// The settings a new picker starts with.
    pub open spec fn has_default_settings(self) -> bool {
        &&& !self.is_curve_locked
        &&& self.is_hue_middle_interpolated
        &&& self.is_insert_right
        &&& self.is_window_lock
        &&& self.spline_mode == SplineMode::HermiteBezier
        &&& !self.auto_save_presets
    }
}

impl<C> Default for ZColorPickerOptions<C> {
    fn default() -> (res: Self)
        ensures
            res.has_default_settings(),
            res.presets@.len() == 0,
            res.preset_selected_index is None,
            !res.auto_save_presets,
    {
        ZColorPickerOptions {
            is_curve_locked: false,
            is_hue_middle_interpolated: true,
            is_insert_right: true,
            is_window_lock: true,
            spline_mode: SplineMode::HermiteBezier,
            presets: Vec::new(),
            preset_selected_index: None,
            auto_save_presets: false,
        }
    }
}

impl<C: Clone> Clone for ZColorPickerOptions<C> {
    fn clone(&self) -> (res: Self)
        ensures
            res.same_settings(*self),
            res.presets@.len() == self.presets@.len(),
            forall|i: int|
                0 <= i < self.presets@.len() ==> cloned(self.presets@[i], #[trigger] res.presets@[i]),
            res.preset_selected_index == self.preset_selected_index,
    {
        ZColorPickerOptions {
            is_curve_locked: self.is_curve_locked,
            is_hue_middle_interpolated: self.is_hue_middle_interpolated,
            is_insert_right: self.is_insert_right,
            is_window_lock: self.is_window_lock,
            spline_mode: self.spline_mode,
            presets: self.presets.clone(),
            preset_selected_index: self.preset_selected_index,
            auto_save_presets: self.auto_save_presets,
        }
    }
}

/// The point being edited, kept within a list of `num_control_points` points: past the
/// end it becomes the last point, and there is none in an empty list.
pub open spec fn clamped_index(last: Option<usize>, num_control_points: nat) -> Option<usize> {
    match last {
        Some(i) => if num_control_points == 0 {
            None
        } else if i < num_control_points {
            Some(i)
        } else {
            Some((num_control_points - 1) as usize)
        },
        None => None,
    }
}

/// Keeps the index of the point being edited within a list of `num_control_points` points.
pub fn clamp_modifying_index(last: Option<usize>, num_control_points: usize) -> (res: Option<usize>)
    ensures
        res == clamped_index(last, num_control_points as nat),
        res matches Some(i) ==> i < num_control_points,
        last is None || num_control_points == 0 ==> res is None,
        last matches Some(i) ==> (i < num_control_points ==> res == Some(i)),
        last matches Some(i) ==> (i >= num_control_points > 0 ==> res == Some(
            (num_control_points - 1) as usize,
        )),
{
    match last {
        Some(i) => {
            if num_control_points == 0 {
                None
            } else if i < num_control_points {
                Some(i)
            } else {
                Some(num_control_points - 1)
            }
        },
        None => None,
    }
}

/// What the pointer did to the control points in one frame of the picker.
#[derive(Debug, Clone, Copy)]
pub struct PointerOutcome {
    /// The point under the pointer when the secondary button was clicked, if any.
    pub right_clicked: Option<usize>,
    /// Whether a point is being dragged.
    pub point_dragged: bool,
    /// Whether that drag is made with the primary button.
    pub dragged_by_primary: bool,
    /// The point the pointer selected, if any.
    pub selected_index: Option<usize>,
}

/// The point indices after a frame: the point being edited, the point being dragged and
/// the point right-clicked, in that order.
pub open spec fn updated_point_indices(
    last: Option<usize>,
    dragging: Option<usize>,
    outcome: PointerOutcome,
) -> (Option<usize>, Option<usize>, Option<usize>) {
    let new_last = if outcome.selected_index is Some {
        outcome.selected_index
    } else {
        last
    };
    let new_dragging = if !outcome.point_dragged {
        None
    } else if outcome.dragged_by_primary {
        outcome.selected_index
    } else {
        dragging
    };
    (new_last, new_dragging, outcome.right_clicked)
}

/// The index, if any, names one of `n` points.
pub open spec fn index_below(index: Option<usize>, n: nat) -> bool {
    index matches Some(i) ==> i < n
}

/// Records what the pointer did in a frame: the right-clicked point, the point being
/// edited (the selected one, if any) and the point being dragged (none when nothing is
/// dragged, the selected one when the primary button drags).
pub fn update_point_indices(
    last: &mut Option<usize>,
    dragging: &mut Option<usize>,
    right_clicked: &mut Option<usize>,
    outcome: &PointerOutcome,
)
    ensures
        (*final(last), *final(dragging), *final(right_clicked)) == updated_point_indices(
            *old(last),
            *old(dragging),
            *outcome,
        ),
        *final(right_clicked) == outcome.right_clicked,
        outcome.selected_index matches Some(i) ==> *final(last) == Some(i),
        outcome.selected_index is None ==> *final(last) == *old(last),
        !outcome.point_dragged ==> *final(dragging) is None,
        outcome.point_dragged && outcome.dragged_by_primary ==> *final(dragging)
            == outcome.selected_index,
        outcome.point_dragged && !outcome.dragged_by_primary
            ==> *final(dragging) == *old(dragging),
{
    *right_clicked = outcome.right_clicked;
    if !outcome.point_dragged {
        *dragging = None;
    }
    if let Some(index) = outcome.selected_index {
        *last = Some(index);
    }
    if outcome.point_dragged && outcome.dragged_by_primary {
        *dragging = outcome.selected_index;
    }
}

/// A selected point becomes the point being edited, whether or not anything is dragged;
/// with nothing selected the edited point stays. The right-clicked point is the one the
/// pointer right-clicked; a drag with the primary button drags the selected point, and
/// nothing is dragged once no point is.
pub proof fn lemma_pointer_outcome_effects(
    last: Option<usize>,
    dragging: Option<usize>,
    outcome: PointerOutcome,
)
    ensures
        outcome.selected_index matches Some(i) ==> updated_point_indices(
            last,
            dragging,
            outcome,
        ).0 == Some(i),
        outcome.selected_index is None ==> updated_point_indices(last, dragging, outcome).0
            == last,
        !outcome.point_dragged ==> updated_point_indices(last, dragging, outcome).1 is None,
        outcome.point_dragged && outcome.dragged_by_primary ==> updated_point_indices(
            last,
            dragging,
            outcome,
        ).1 == outcome.selected_index,
        outcome.point_dragged && !outcome.dragged_by_primary ==> updated_point_indices(
            last,
            dragging,
            outcome,
        ).1 == dragging,
        updated_point_indices(last, dragging, outcome).2 == outcome.right_clicked,
{
}

/// Indices that name points of a list of `n` stay so after a frame in which the pointer
/// named only points of that list; in particular all three are `None` when the list is
/// empty.
pub proof fn lemma_point_indices_stay_in_range(
    last: Option<usize>,
    dragging: Option<usize>,
    outcome: PointerOutcome,
    n: nat,
)
    requires
        index_below(last, n),
        index_below(dragging, n),
        index_below(outcome.right_clicked, n),
        index_below(outcome.selected_index, n),
    ensures
        index_below(updated_point_indices(last, dragging, outcome).0, n),
        index_below(updated_point_indices(last, dragging, outcome).1, n),
        index_below(updated_point_indices(last, dragging, outcome).2, n),
        n == 0 ==> {
            &&& updated_point_indices(last, dragging, outcome).0 is None
            &&& updated_point_indices(last, dragging, outcome).1 is None
            &&& updated_point_indices(last, dragging, outcome).2 is None
        },
{
}

/// The colour picker: its control points, the points being edited, dragged or
/// removed, and its options.
#[derive(Debug)]
pub struct ZColorPickerWrapper<C> {
    pub control_points: Vec<C>,
    pub last_modifying_point_index: Option<usize>,
    pub dragging_index: Option<usize>,
    pub control_point_right_clicked: Option<usize>,
    pub options: ZColorPickerOptions<C>,
}

/// Where a new control point goes: after (or before) the point last edited, otherwise
/// at the end (or the start) of the list.
pub open spec fn spawn_index(last: Option<usize>, len: nat, insert_right: bool) -> nat {
    match last {
        Some(i) => if insert_right {
            (i + 1) as nat
        } else {
            i as nat
        },
        None => if len == 0 {
            0
        } else if insert_right {
            len
        } else {
            0
        },
    }
}

/// A new point goes right after the edited point when inserting to the right and takes
/// its place otherwise; with no point being edited it goes after all `len` points when
/// inserting to the right and before them otherwise.
pub proof fn lemma_spawn_position(last: Option<usize>, len: nat, insert_right: bool)
    ensures
        last matches Some(i) ==> spawn_index(last, len, insert_right) == if insert_right {
            i + 1
        } else {
            i as int
        },
        last is None && insert_right ==> spawn_index(last, len, insert_right) == len,
        last is None && !insert_right ==> spawn_index(last, len, insert_right) == 0,
{
}

impl<C: Clone> ZColorPickerWrapper<C> {
    /// A picker with no points, nothing being edited and the default options.
    pub fn new() -> (res: Self)
        ensures
            res.control_points@.len() == 0,
            res.last_modifying_point_index is None,
            res.dragging_index is None,
            res.control_point_right_clicked is None,
            res.options.has_default_settings(),
            res.options.presets@.len() == 0,
            res.options.preset_selected_index is None,
            res.options.wf(),
    {
        ZColorPickerWrapper {
            control_points: Vec::with_capacity(4),
            last_modifying_point_index: None,
            dragging_index: None,
            control_point_right_clicked: None,
            options: ZColorPickerOptions::default(),
        }
    }

    /// Adds the loaded presets; then applies the first preset, or, when there is none,
    /// appends copies of the startup points.
    pub fn load_presets(&mut self, loaded: Vec<PresetEntity<C>>, startup_points: &Vec<C>)
        ensures
            old(self).options.wf() ==> final(self).options.wf(),
            final(self).options.presets@ == old(self).options.presets@ + loaded@,
            final(self).options.same_settings_but_spline_mode(old(self).options),
            final(self).last_modifying_point_index == old(self).last_modifying_point_index,
            final(self).dragging_index == old(self).dragging_index,
            final(self).control_point_right_clicked == old(self).control_point_right_clicked,
            if final(self).options.presets@.len() >= 1 {
                &&& final(self).options.preset_selected_index == Some(0usize)
                &&& exists|p: PresetEntity<C>|
                    {
                        &&& entity_cloned(final(self).options.presets@[0], p)
                        &&& clones(p.data.control_points@, final(self).control_points@)
                        &&& final(self).options.spline_mode == p.data.spline_mode
                    }
            } else {
                &&& final(self).options.preset_selected_index == old(self).options.preset_selected_index
                &&& final(self).options.spline_mode == old(self).options.spline_mode
                &&& final(self).control_points@.len() == old(self).control_points@.len()
                    + startup_points@.len()
                &&& final(self).control_points@.subrange(0, old(self).control_points@.len() as int)
                    == old(self).control_points@
                &&& clones(
                    startup_points@,
                    final(self).control_points@.subrange(
                        old(self).control_points@.len() as int,
                        final(self).control_points@.len() as int,
                    ),
                )
            },
    {
        let mut loaded = loaded;
        let ghost old_presets = self.options.presets@;
        let ghost loaded_seq = loaded@;
        self.options.presets.append(&mut loaded);
        if self.options.presets.len() >= 1 {
            self.options.preset_selected_index = Some(0);
            let r = self.apply_selected_preset();
            proof {
                let p = r.unwrap();
                assert(entity_cloned(self.options.presets@[0], p));
            }
        } else {
            let ghost start = self.control_points@;
            let mut i: usize = 0;
            while i < startup_points.len()
                invariant
                    i <= startup_points@.len(),
                    self.options.presets@ == old_presets + loaded_seq,
                    self.options.presets@.len() == 0,
                    self.control_points@.len() == start.len() + i,
                    self.control_points@.subrange(0, start.len() as int) == start,
                    forall|j: int|
                        0 <= j < i ==> cloned(
                            startup_points@[j],
                            #[trigger] self.control_points@[start.len() + j],
                        ),
                    self.last_modifying_point_index == old(self).last_modifying_point_index,
                    self.dragging_index == old(self).dragging_index,
                    self.options.preset_selected_index == old(self).options.preset_selected_index,
                    self.options.same_settings(old(self).options),
                    self.control_point_right_clicked == old(self).control_point_right_clicked,
                decreases startup_points@.len() - i,
            {
                let cp = startup_points[i].clone();
                self.control_points.push(cp);
                i = i + 1;
                assert(self.control_points@.subrange(0, start.len() as int) =~= start);
            }
            proof {
                let added = self.control_points@.subrange(
                    start.len() as int,
                    self.control_points@.len() as int,
                );
                assert forall|j: int| 0 <= j < startup_points@.len() implies cloned(
                    startup_points@[j],
                    #[trigger] added[j],
                ) by {
                    assert(added[j] == self.control_points@[start.len() + j]);
                }
            }
        }
    }

    /// Puts copies of the preset's points and its spline mode in place of the current ones.
    pub fn apply_preset(&mut self, preset: &PresetEntity<C>) -> (res: Result<(), ZError>)
        ensures
            res is Ok,
            clones(preset.data.control_points@, final(self).control_points@),
            final(self).options.spline_mode == preset.data.spline_mode,
            final(self).options.presets == old(self).options.presets,
            final(self).options.preset_selected_index == old(self).options.preset_selected_index,
            final(self).options.same_settings_but_spline_mode(old(self).options),
            final(self).last_modifying_point_index == old(self).last_modifying_point_index,
            final(self).dragging_index == old(self).dragging_index,
            final(self).control_point_right_clicked == old(self).control_point_right_clicked,
    {
        self.control_points.clear();
        let mut i: usize = 0;
        while i < preset.data.control_points.len()
            invariant
                i <= preset.data.control_points@.len(),
                self.control_points@.len() == i,
                forall|j: int|
                    0 <= j < i ==> cloned(
                        preset.data.control_points@[j],
                        #[trigger] self.control_points@[j],
                    ),
                self.options == old(self).options,
                self.last_modifying_point_index == old(self).last_modifying_point_index,
                self.dragging_index == old(self).dragging_index,
                self.control_point_right_clicked == old(self).control_point_right_clicked,
            decreases preset.data.control_points@.len() - i,
        {
            let cp = preset.data.control_points[i].clone();
            self.control_points.push(cp);
            i = i + 1;
        }
        self.options.spline_mode = preset.data.spline_mode;
        Ok(())
    }

    /// Applies a copy of the selected preset and returns that copy; an error when nothing,
    /// or nothing in the list, is selected.
    pub fn apply_selected_preset(&mut self) -> (res: Result<PresetEntity<C>, ZError>)
        ensures
            final(self).options.presets == old(self).options.presets,
            final(self).options.preset_selected_index == old(self).options.preset_selected_index,
            final(self).options.same_settings_but_spline_mode(old(self).options),
            final(self).last_modifying_point_index == old(self).last_modifying_point_index,
            final(self).dragging_index == old(self).dragging_index,
            final(self).control_point_right_clicked == old(self).control_point_right_clicked,
            match old(self).options.preset_selected_index {
                Some(s) if s < old(self).options.presets@.len() => {
                    res matches Ok(p) && {
                        &&& entity_cloned(old(self).options.presets@[s as int], p)
                        &&& clones(p.data.control_points@, final(self).control_points@)
                        &&& final(self).options.spline_mode == p.data.spline_mode
                    }
                },
                _ => {
                    &&& *final(self) == *old(self)
                    &&& res matches Err(e) && is_message(
                        e,
                        "Apply preset failed. Could not find preset"@,
                    )
                },
            },
    {
        if let Some(s) = self.options.preset_selected_index {
            if s < self.options.presets.len() {
                let preset_to_apply = self.options.presets[s].clone();
                match self.apply_preset(&preset_to_apply) {
                    Ok(_) => return Ok(preset_to_apply),
                    Err(_) => {
                        return Err(ZError::message("Apply preset failed. Could not apply preset"))
                    },
                }
            }
        }
        Err(ZError::message("Apply preset failed. Could not find preset"))
    }

    /// Preset data holding copies of the current points and the current spline mode.
    pub fn preset_data_from_current_state(&self) -> (res: PresetData<C>)
        ensures
            res.spline_mode == self.options.spline_mode,
            clones(self.control_points@, res.control_points@),
    {
        PresetData {
            spline_mode: self.options.spline_mode,
            control_points: self.control_points.clone(),
        }
    }

    /// Stores the current points and mode in the selected preset and saves it with `save`;
    /// an error when nothing is selected.
    pub fn save_selected_preset<F: FnOnce(&PresetEntity<C>) -> Result<(), ZError>>(
        &mut self,
        save: F,
    ) -> (res: Result<(), ZError>)
        requires
            old(self).options.wf(),
            forall|p: &PresetEntity<C>| save.requires((p,)),
        ensures
            final(self).control_points == old(self).control_points,
            final(self).last_modifying_point_index == old(self).last_modifying_point_index,
            final(self).dragging_index == old(self).dragging_index,
            final(self).options.same_settings(old(self).options),
            final(self).options.preset_selected_index == old(self).options.preset_selected_index,
            final(self).options.wf(),
            match old(self).options.preset_selected_index {
                Some(s) => {
                    let q = final(self).options.presets@[s as int];
                    &&& final(self).options.presets@ == old(self).options.presets@.update(s as int, q)
                    &&& q.name == old(self).options.presets@[s as int].name
                    &&& q.data.spline_mode == old(self).options.spline_mode
                    &&& clones(old(self).control_points@, q.data.control_points@)
                    &&& save.ensures((&q,), res)
                },
                None => {
                    &&& final(self).options.presets == old(self).options.presets
                    &&& res matches Err(e) && is_message(
                        e,
                        "Preset Save failed, No preset selected"@,
                    )
                },
            },
    {
        if let Some(s) = self.options.preset_selected_index {
            let mut preset = self.options.presets.remove(s);
            preset.data = PresetData {
                spline_mode: self.options.spline_mode,
                control_points: self.control_points.clone(),
            };
            self.options.presets.insert(s, preset);
            proof {
                assert(self.options.presets@ =~= old(self).options.presets@.update(
                    s as int,
                    self.options.presets@[s as int],
                ));
            }
            return save(&self.options.presets[s]);
        }
        Err(ZError::message("Preset Save failed, No preset selected"))
    }

    /// Adds a preset of the current points and mode under a new name, selects it and saves
    /// it with `save`; an error, with nothing changed, when the name is taken.
    pub fn create_preset<F: FnOnce(&PresetEntity<C>) -> Result<(), ZError>>(
        &mut self,
        name: &String,
        save: F,
    ) -> (res: Result<(), ZError>)
        requires
            old(self).options.presets@.len() < usize::MAX,
            forall|p: &PresetEntity<C>| save.requires((p,)),
        ensures
            old(self).options.wf() ==> final(self).options.wf(),
            final(self).control_points == old(self).control_points,
            final(self).last_modifying_point_index == old(self).last_modifying_point_index,
            final(self).dragging_index == old(self).dragging_index,
            final(self).options.same_settings(old(self).options),
            forall|i: int|
                0 <= i < old(self).options.presets@.len() && (#[trigger] old(
                    self,
                ).options.presets@[i]).name@ == name@ ==> {
                    &&& final(self).options == old(self).options
                    &&& res matches Err(e) && is_message(
                        e,
                        "Preset already exists with that name"@,
                    )
                },
            (forall|i: int|
                0 <= i < old(self).options.presets@.len() ==> (#[trigger] old(
                    self,
                ).options.presets@[i]).name@ != name@) ==> {
                &&& final(self).options.presets@.len() == old(self).options.presets@.len() + 1
                &&& final(self).options.presets@[old(self).options.presets@.len() as int].name@
                    == name@
                &&& final(self).options.preset_selected_index == Some(
                    old(self).options.presets@.len() as usize,
                )
            },
            if has_preset_named(old(self).options.presets@, name@) {
                &&& final(self).options == old(self).options
                &&& res matches Err(e) && is_message(e, "Preset already exists with that name"@)
            } else {
                let n = old(self).options.presets@.len();
                let q = final(self).options.presets@[n as int];
                &&& final(self).options.presets@ == old(self).options.presets@.push(q)
                &&& q.name@ == name@
                &&& q.data.spline_mode == old(self).options.spline_mode
                &&& clones(old(self).control_points@, q.data.control_points@)
                &&& final(self).options.preset_selected_index == Some(n as usize)
                &&& save.ensures((&q,), res)
            },
    {
        if preset_name_taken(&self.options.presets, name) {
            return Err(ZError::message("Preset already exists with that name"));
        }
        let preset = PresetEntity::new(name.as_str(), self.preset_data_from_current_state());
        let index = self.options.presets.len();
        self.options.presets.push(preset);
        self.options.preset_selected_index = Some(index);
        let r = self.save_selected_preset(save);
        proof {
            assert(self.options.presets@ =~= old(self).options.presets@.push(
                self.options.presets@[index as int],
            ));
        }
        r
    }

    /// Removes the selected preset from the list and deletes it with `delete`, then clears
    /// the selection if that succeeded; an error when nothing is selected.
    pub fn delete_selected_preset<F: FnOnce(&PresetEntity<C>) -> Result<(), ZError>>(
        &mut self,
        delete: F,
    ) -> (res: Result<(), ZError>)
        requires
            old(self).options.wf(),
            forall|p: &PresetEntity<C>| delete.requires((p,)),
        ensures
            final(self).control_points == old(self).control_points,
            final(self).last_modifying_point_index == old(self).last_modifying_point_index,
            final(self).dragging_index == old(self).dragging_index,
            final(self).options.same_settings(old(self).options),
            match old(self).options.preset_selected_index {
                Some(s) => {
                    &&& final(self).options.presets@ == old(self).options.presets@.remove(s as int)
                    &&& delete.ensures((&old(self).options.presets@[s as int],), res)
                    &&& final(self).options.preset_selected_index == (if res is Ok {
                        None
                    } else {
                        Some(s)
                    })
                },
                None => {
                    &&& final(self).options == old(self).options
                    &&& res matches Err(e) && is_message(
                        e,
                        "Selected Preset Delete failed, No preset selected"@,
                    )
                },
            },
    {
        if let Some(s) = self.options.preset_selected_index {
            let preset_to_remove = self.options.presets.remove(s);
            let r = delete(&preset_to_remove);
            if r.is_ok() {
                self.options.preset_selected_index = None;
            }
            return r;
        }
        Err(ZError::message("Selected Preset Delete failed, No preset selected"))
    }

    /// Removes the point at `index`; the point before it (or the first) becomes the one
    /// edited and dragged, unless at most one point is left.
    pub fn remove_control_point(&mut self, index: usize)
        requires
            index < old(self).control_points@.len(),
        ensures
            final(self).control_points@ == old(self).control_points@.remove(index as int),
            final(self).last_modifying_point_index matches Some(i) ==> i
                < final(self).control_points@.len(),
            final(self).options == old(self).options,
            final(self).control_point_right_clicked == old(self).control_point_right_clicked,
            if final(self).control_points@.len() > 1 {
                let k = (if index >= 1 {
                    index - 1
                } else {
                    0
                }) as usize;
                &&& final(self).last_modifying_point_index == Some(k)
                &&& final(self).dragging_index == Some(k)
            } else {
                &&& final(self).last_modifying_point_index is None
                &&& final(self).dragging_index is None
            },
    {
        self.control_points.remove(index);
        if self.control_points.len() > 1 {
            let k = if index >= 1 {
                index - 1
            } else {
                0
            };
            self.last_modifying_point_index = Some(k);
            self.dragging_index = Some(k);
        } else {
            self.dragging_index = None;
            self.last_modifying_point_index = None;
        }
    }

    /// Removes every point, last first; nothing is left being edited or dragged.
    pub fn remove_all_control_points(&mut self)
        ensures
            final(self).control_points@.len() == 0,
            final(self).last_modifying_point_index is None,
            final(self).dragging_index is None,
            final(self).options == old(self).options,
            final(self).control_point_right_clicked == old(self).control_point_right_clicked,
    {
        let mut i = self.control_points.len();
        while i > 0
            invariant
                i == self.control_points@.len(),
                self.options == old(self).options,
                self.control_point_right_clicked == old(self).control_point_right_clicked,
            decreases i,
        {
            i = i - 1;
            self.remove_control_point(i);
        }
        self.last_modifying_point_index = None;
        self.dragging_index = None;
    }

    /// Inserts a point next to the one last edited (after it, or before it, as the options
    /// say), otherwise at the end (or the start); the new point becomes the one edited and
    /// nothing is dragged.
    pub fn spawn_control_point(&mut self, cp: C)
        requires
            spawn_index(
                old(self).last_modifying_point_index,
                old(self).control_points@.len(),
                old(self).options.is_insert_right,
            ) <= old(self).control_points@.len(),
        ensures
            ({
                let k = spawn_index(
                    old(self).last_modifying_point_index,
                    old(self).control_points@.len(),
                    old(self).options.is_insert_right,
                );
                &&& final(self).control_points@ == old(self).control_points@.insert(k as int, cp)
                &&& final(self).last_modifying_point_index == Some(k as usize)
                &&& k < final(self).control_points@.len()
            }),
            old(self).last_modifying_point_index matches Some(i) ==> {
                &&& old(self).options.is_insert_right ==> final(self).last_modifying_point_index
                    == Some((i + 1) as usize)
                &&& !old(self).options.is_insert_right ==> final(self).last_modifying_point_index
                    == Some(i)
            },
            old(self).last_modifying_point_index is None ==> {
                &&& old(self).options.is_insert_right ==> {
                    &&& final(self).control_points@ == old(self).control_points@.push(cp)
                    &&& final(self).last_modifying_point_index == Some(
                        old(self).control_points@.len() as usize,
                    )
                }
                &&& !old(self).options.is_insert_right ==> {
                    &&& final(self).control_points@ == seq![cp] + old(self).control_points@
                    &&& final(self).last_modifying_point_index == Some(0usize)
                }
            },
            final(self).last_modifying_point_index matches Some(k)
                && final(self).control_points@ == old(self).control_points@.insert(k as int, cp),
            final(self).dragging_index is None,
            final(self).options == old(self).options,
            final(self).control_point_right_clicked == old(self).control_point_right_clicked,
    {
        let n = self.control_points.len();
        let new_index = match self.last_modifying_point_index {
            Some(index) => {
                if self.options.is_insert_right {
                    assert(index + 1 <= n);
                    index + 1
                } else {
                    index
                }
            },
            None => {
                if self.control_points.len() == 0 {
                    0
                } else {
                    if self.options.is_insert_right {
                        self.control_points.len()
                    } else {
                        0
                    }
                }
            },
        };
        self.dragging_index = None;
        let ghost before = self.control_points@;
        self.control_points.insert(new_index, cp);
        self.last_modifying_point_index = Some(new_index);
        proof {
            if new_index == n {
                assert(self.control_points@ =~= before.push(cp));
            }
            if new_index == 0 {
                assert(self.control_points@ =~= seq![cp] + before);
            }
        }
    }
}

impl<V: Clone, T: Clone> ZColorPickerWrapper<ControlPoint<V, T>> {
    /// In Bezier mode, gives every point a clone of `new_tangent` on each side where it has
    /// no tangent; in the other modes nothing changes.
    pub fn pre_draw_update(&mut self, new_tangent: &V)
        ensures
            final(self).options == old(self).options,
            final(self).last_modifying_point_index == old(self).last_modifying_point_index,
            final(self).dragging_index == old(self).dragging_index,
            final(self).control_point_right_clicked == old(self).control_point_right_clicked,
            if old(self).options.spline_mode == SplineMode::Bezier {
                &&& final(self).control_points@.len() == old(self).control_points@.len()
                &&& forall|i: int|
                    0 <= i < old(self).control_points@.len() ==> tangents_filled(
                        old(self).control_points@[i],
                        #[trigger] final(self).control_points@[i],
                        *new_tangent,
                    )
            } else {
                final(self).control_points == old(self).control_points
            },
    {
        if self.options.spline_mode == SplineMode::Bezier {
            let mut points: Vec<ControlPoint<V, T>> = Vec::new();
            std::mem::swap(&mut points, &mut self.control_points);
            let ghost orig = points@;
            let n = points.len();
            let mut reversed: Vec<ControlPoint<V, T>> = Vec::new();
            while points.len() > 0
                invariant
                    n == orig.len(),
                    points@ == orig.take(n - reversed@.len()),
                    reversed@.len() <= n,
                    forall|i: int|
                        0 <= i < reversed@.len() ==> #[trigger] reversed@[i] == orig[n - 1 - i],
                decreases points@.len(),
            {
                let cp = points.pop().unwrap();
                reversed.push(cp);
                assert(points@ =~= orig.take(n - reversed@.len()));
            }
            while reversed.len() > 0
                invariant
                    n == orig.len(),
                    reversed@.len() + self.control_points@.len() == n,
                    forall|i: int|
                        0 <= i < reversed@.len() ==> #[trigger] reversed@[i] == orig[n - 1 - i],
                    forall|i: int|
                        0 <= i < self.control_points@.len() ==> tangents_filled(
                            orig[i],
                            #[trigger] self.control_points@[i],
                            *new_tangent,
                        ),
                    self.options == old(self).options,
                    self.last_modifying_point_index == old(self).last_modifying_point_index,
                    self.dragging_index == old(self).dragging_index,
                    self.control_point_right_clicked == old(self).control_point_right_clicked,
                decreases reversed@.len(),
            {
                let mut cp = reversed.pop().unwrap();
                cp.fill_missing_tangents(new_tangent);
                self.control_points.push(cp);
            }
        }
    }
}

} // verus!
