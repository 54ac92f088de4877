//! Presets: named, saved sets of control points with their spline mode.
use vstd::prelude::*;
use crate::common::SplineMode;
use crate::error::{is_message, ZError};

verus! {

/// The points of `b` are clones of those of `a`, in order.
pub open spec fn clones<C: Clone>(a: Seq<C>, b: Seq<C>) -> bool {
    &&& a.len() == b.len()
    &&& forall|i: int| 0 <= i < a.len() ==> cloned(a[i], #[trigger] b[i])
}

/// What a preset stores.
#[derive(Debug)]
pub struct PresetData<C> {
    pub spline_mode: SplineMode,
    pub control_points: Vec<C>,
}

/// A preset and the name it is saved under.
#[derive(Debug)]
pub struct PresetEntity<C> {
    pub name: String,
    pub data: PresetData<C>,
}

/// `b` is a copy of `a`, its points cloned.
pub open spec fn data_cloned<C: Clone>(a: PresetData<C>, b: PresetData<C>) -> bool {
    &&& b.spline_mode == a.spline_mode
    &&& clones(a.control_points@, b.control_points@)
}

/// `b` is a copy of `a`, its points cloned.
pub open spec fn entity_cloned<C: Clone>(a: PresetEntity<C>, b: PresetEntity<C>) -> bool {
    &&& b.name@ == a.name@
    &&& data_cloned(a.data, b.data)
}

impl<C: Clone> Clone for PresetData<C> {
    fn clone(&self) -> (res: Self)
        ensures
            data_cloned(*self, res),
    {
        PresetData { spline_mode: self.spline_mode, control_points: self.control_points.clone() }
    }
}

impl<C: Clone> Clone for PresetEntity<C> {
    fn clone(&self) -> (res: Self)
        ensures
            entity_cloned(*self, res),
    {
        PresetEntity { name: self.name.clone(), data: self.data.clone() }
    }
}

impl<C: Clone> PresetEntity<C> {
    pub fn new(name: &str, data: PresetData<C>) -> (res: Self)
        ensures
            res.name@ == name@,
            res.data == data,
    {
        PresetEntity { name: String::from_str(name), data }
    }

    /// Puts a copy of the preset's points and spline mode in place of the current ones.
    pub fn apply(&self, control_points: &mut Vec<C>, spline_mode: &mut SplineMode)
        ensures
            clones(self.data.control_points@, final(control_points)@),
            *final(spline_mode) == self.data.spline_mode,
    {
        self.data.clone().apply(control_points, spline_mode);
    }

    /// The preset's points and spline mode.
    pub fn into(self) -> (res: (Vec<C>, SplineMode))
        ensures
            res.0 == self.data.control_points,
            res.1 == self.data.spline_mode,
    {
        (self.data.control_points, self.data.spline_mode)
    }

    /// Preset data holding a copy of the given points and mode.
    pub fn make_preset_data(control_points: &Vec<C>, spline_mode: &SplineMode) -> (res: PresetData<
        C,
    >)
        ensures
            res.spline_mode == *spline_mode,
            clones(control_points@, res.control_points@),
    {
        PresetData { spline_mode: *spline_mode, control_points: control_points.clone() }
    }
}

impl<C> PresetData<C> {
    /// Puts the preset's points and spline mode in place of the current ones.
    pub fn apply(self, control_points: &mut Vec<C>, spline_mode: &mut SplineMode)
        ensures
            *final(control_points) == self.control_points,
            *final(spline_mode) == self.spline_mode,
    {
        *control_points = self.control_points;
        *spline_mode = self.spline_mode;
    }
}

impl<C> From<(Vec<C>, SplineMode)> for PresetData<C> {
    fn from(value: (Vec<C>, SplineMode)) -> (res: Self) {
        PresetData { control_points: value.0, spline_mode: value.1 }
    }
}

impl<C> vstd::std_specs::convert::FromSpecImpl<(Vec<C>, SplineMode)> for PresetData<C> {
    open spec fn obeys_from_spec() -> bool {
        true
    }

    open spec fn from_spec(value: (Vec<C>, SplineMode)) -> Self {
        PresetData { control_points: value.0, spline_mode: value.1 }
    }
}

/// Some preset in the list is saved under `name`.
pub open spec fn has_preset_named<C>(presets: Seq<PresetEntity<C>>, name: Seq<char>) -> bool {
    exists|i: int| 0 <= i < presets.len() && (#[trigger] presets[i]).name@ == name
}

/// A name is taken as soon as any preset of the list, wherever it stands, carries it, and
/// is free only when every preset carries another name.
pub proof fn lemma_name_taken_by_any_preset<C>(presets: Seq<PresetEntity<C>>, name: Seq<char>)
    ensures
        forall|i: int|
            0 <= i < presets.len() && (#[trigger] presets[i]).name@ == name ==> has_preset_named(
                presets,
                name,
            ),
        !has_preset_named(presets, name) ==> forall|i: int|
            0 <= i < presets.len() ==> (#[trigger] presets[i]).name@ != name,
{
}

/// Whether a preset in `presets` is saved under `name`.
pub fn preset_name_taken<C>(presets: &Vec<PresetEntity<C>>, name: &String) -> (res: bool)
    ensures
        res == has_preset_named(presets@, name@),
        forall|i: int| 0 <= i < presets@.len() && (#[trigger] presets@[i]).name@ == name@ ==> res,
        !res ==> forall|i: int| 0 <= i < presets@.len() ==> (#[trigger] presets@[i]).name@ != name@,
{
    let mut i: usize = 0;
    while i < presets.len()
        invariant
            i <= presets@.len(),
            forall|j: int| 0 <= j < i ==> (#[trigger] presets@[j]).name@ != name@,
        decreases presets@.len() - i,
    {
        if presets[i].name == *name {
            assert(presets@[i as int].name@ == name@);
            return true;
        }
        i = i + 1;
    }
    false
}

/// The presets known to the program and which of them is selected.
#[derive(Debug)]
pub struct PresetHandler<C> {
    pub presets: Vec<PresetEntity<C>>,
    pub preset_selected_index: Option<usize>,
    pub auto_save_presets: bool,
}

impl<C: Clone> PresetHandler<C> {
    /// The selection, if any, names a preset in the list.
    pub open spec fn wf(self) -> bool {
        self.preset_selected_index matches Some(i) ==> i < self.presets@.len()
    }

    /// A handler over the presets that loading gave, or none if loading failed; nothing
    /// selected, no automatic saving.
    pub fn from_loaded(loaded: Result<Vec<PresetEntity<C>>, ZError>) -> (res: Self)
        ensures
            match loaded {
                Ok(p) => res.presets == p,
                Err(_) => res.presets@.len() == 0,
            },
            res.preset_selected_index is None,
            !res.auto_save_presets,
            res.wf(),
    {
        let presets = match loaded {
            Ok(p) => p,
            Err(_) => Vec::new(),
        };
        PresetHandler { presets, preset_selected_index: None, auto_save_presets: false }
    }

    pub fn presets(&self) -> (res: &Vec<PresetEntity<C>>)
        ensures
            res == &self.presets,
    {
        &self.presets
    }

    pub fn presets_mut(&mut self) -> (res: &mut Vec<PresetEntity<C>>)
        ensures
            *res == old(self).presets,
            final(self).presets == *final(res),
            final(self).preset_selected_index == old(self).preset_selected_index,
            final(self).auto_save_presets == old(self).auto_save_presets,
    {
        &mut self.presets
    }

    /// Puts a copy of the selected preset's points and mode in place of the given ones;
    /// leaves them as they are if the selection is past the end of the list.
    pub fn apply_selected_preset(&mut self, control_points: &mut Vec<C>, spline_mode: &mut SplineMode)
        requires
            old(self).preset_selected_index is Some,
        ensures
            *final(self) == *old(self),
            ({
                let s = old(self).preset_selected_index.unwrap();
                if s < old(self).presets@.len() {
                    &&& clones(old(self).presets@[s as int].data.control_points@, final(control_points)@)
                    &&& *final(spline_mode) == old(self).presets@[s as int].data.spline_mode
                } else {
                    &&& *final(control_points) == *old(control_points)
                    &&& *final(spline_mode) == *old(spline_mode)
                }
            }),
    {
        let s = self.preset_selected_index.unwrap();
        if s < self.presets.len() {
            let (preset_control_points, preset_spline_mode) = self.presets[s].clone().into();
            *control_points = preset_control_points;
            *spline_mode = preset_spline_mode;
        }
    }

    /// Replaces the presets with those loaded, or keeps them and passes on the error.
    pub fn init_presets(&mut self, loaded: Result<Vec<PresetEntity<C>>, ZError>) -> (res: Result<
        (),
        ZError,
    >)
        ensures
            match loaded {
                Ok(p) => res is Ok && final(self).presets == p,
                Err(e) => res == Err::<(), ZError>(e) && final(self).presets == old(self).presets,
            },
            final(self).preset_selected_index == old(self).preset_selected_index,
            final(self).auto_save_presets == old(self).auto_save_presets,
    {
        match loaded {
            Ok(p) => {
                self.presets = p;
                Ok(())
            },
            Err(e) => Err(e),
        }
    }

    /// Saves the selected preset with `save`; an error when nothing is selected.
    pub fn save_selected_preset<F: FnOnce(&PresetEntity<C>) -> Result<(), ZError>>(
        &mut self,
        save: F,
    ) -> (res: Result<(), ZError>)
        requires
            old(self).wf(),
            forall|p: &PresetEntity<C>| save.requires((p,)),
        ensures
            *final(self) == *old(self),
            match old(self).preset_selected_index {
                Some(s) => save.ensures((&old(self).presets@[s as int],), res),
                None => res matches Err(e) && is_message(e, "Preset Save failed, No preset selected"@),
            },
    {
        match self.preset_selected_index {
            Some(s) => save(&self.presets[s]),
            None => Err(ZError::message("Preset Save failed, No preset selected")),
        }
    }

    /// Adds a preset of the given points and mode under a new name, selects it and saves it
    /// with `save`; an error, with nothing changed, when the name is taken.
    pub fn create_preset<F: FnOnce(&PresetEntity<C>) -> Result<(), ZError>>(
        &mut self,
        name: &String,
        control_points: &Vec<C>,
        spline_mode: &SplineMode,
        save: F,
    ) -> (res: Result<(), ZError>)
        requires
            old(self).presets@.len() < usize::MAX,
            forall|p: &PresetEntity<C>| save.requires((p,)),
        ensures
            old(self).wf() ==> final(self).wf(),
            final(self).auto_save_presets == old(self).auto_save_presets,
            forall|i: int|
                0 <= i < old(self).presets@.len() && (#[trigger] old(self).presets@[i]).name@
                    == name@ ==> {
                    &&& *final(self) == *old(self)
                    &&& res matches Err(e) && is_message(
                        e,
                        "Preset already exists with that name"@,
                    )
                },
            (forall|i: int|
                0 <= i < old(self).presets@.len() ==> (#[trigger] old(self).presets@[i]).name@
                    != name@) ==> {
                &&& final(self).presets@.len() == old(self).presets@.len() + 1
                &&& final(self).presets@[old(self).presets@.len() as int].name@ == name@
                &&& final(self).preset_selected_index == Some(old(self).presets@.len() as usize)
            },
            if has_preset_named(old(self).presets@, name@) {
                &&& *final(self) == *old(self)
                &&& res matches Err(e) && is_message(e, "Preset already exists with that name"@)
            } else {
                let n = old(self).presets@.len();
                let p = final(self).presets@[n as int];
                &&& final(self).presets@ == old(self).presets@.push(p)
                &&& p.name@ == name@
                &&& p.data.spline_mode == *spline_mode
                &&& clones(control_points@, p.data.control_points@)
                &&& final(self).preset_selected_index == Some(n as usize)
                &&& save.ensures((&p,), res)
            },
    {
        if preset_name_taken(&self.presets, name) {
            return Err(ZError::message("Preset already exists with that name"));
        }
        let preset = PresetEntity::new(
            name.as_str(),
            PresetData::from((control_points.clone(), *spline_mode)),
        );
        let index = self.presets.len();
        self.presets.push(preset);
        self.preset_selected_index = Some(index);
        self.save_selected_preset(save)
    }

    /// Removes the selected preset from the list and deletes it with `delete`, then clears
    /// the selection if that succeeded; an error when nothing is selected.
    pub fn delete_selected_preset<F: FnOnce(&PresetEntity<C>) -> Result<(), ZError>>(
        &mut self,
        delete: F,
    ) -> (res: Result<(), ZError>)
        requires
            old(self).wf(),
            forall|p: &PresetEntity<C>| delete.requires((p,)),
        ensures
            final(self).auto_save_presets == old(self).auto_save_presets,
            match old(self).preset_selected_index {
                Some(s) => {
                    &&& final(self).presets@ == old(self).presets@.remove(s as int)
                    &&& delete.ensures((&old(self).presets@[s as int],), res)
                    &&& final(self).preset_selected_index == (if res is Ok {
                        None
                    } else {
                        Some(s)
                    })
                },
                None => {
                    &&& *final(self) == *old(self)
                    &&& res matches Err(e) && is_message(
                        e,
                        "Selected Preset Delete failed, No preset selected"@,
                    )
                },
            },
    {
        match self.preset_selected_index {
            Some(s) => {
                let preset_to_remove = self.presets.remove(s);
                let r = delete(&preset_to_remove);
                if r.is_ok() {
                    self.preset_selected_index = None;
                }
                r
            },
            None => Err(ZError::message("Selected Preset Delete failed, No preset selected")),
        }
    }
}

/// The presets that loaded, in order, leaving out the failures.
pub open spec fn loaded_presets<C>(results: Seq<Result<PresetEntity<C>, ZError>>) -> Seq<
    PresetEntity<C>,
>
    decreases results.len(),
{
    if results.len() == 0 {
        Seq::empty()
    } else {
        let rest = loaded_presets(results.drop_first());
        match results[0] {
            Ok(p) => seq![p] + rest,
            Err(_) => rest,
        }
    }
}

/// A preset that loaded is kept, a failure is left out, and the presets of two runs of
/// results follow each other in the same order.
pub proof fn lemma_loaded_presets_keeps_successes_in_order<C>(
    a: Seq<Result<PresetEntity<C>, ZError>>,
    b: Seq<Result<PresetEntity<C>, ZError>>,
    p: PresetEntity<C>,
    e: ZError,
)
    ensures
        loaded_presets(seq![Ok(p)]) == seq![p],
        loaded_presets(seq![Err::<PresetEntity<C>, ZError>(e)]).len() == 0,
        loaded_presets(a + b) == loaded_presets(a) + loaded_presets(b),
    decreases a.len(),
{
    let one: Seq<Result<PresetEntity<C>, ZError>> = seq![Ok(p)];
    assert(one.drop_first() =~= Seq::<Result<PresetEntity<C>, ZError>>::empty());
    let none: Seq<Result<PresetEntity<C>, ZError>> = seq![Err(e)];
    assert(none.drop_first() =~= Seq::<Result<PresetEntity<C>, ZError>>::empty());
    if a.len() == 0 {
        assert(a + b =~= b);
    } else {
        lemma_loaded_presets_keeps_successes_in_order(a.drop_first(), b, p, e);
        assert((a + b).drop_first() =~= a.drop_first() + b);
        assert((a + b)[0] == a[0]);
    }
    assert(loaded_presets(Seq::<Result<PresetEntity<C>, ZError>>::empty()).len() == 0);
    assert(loaded_presets(one) =~= seq![p]);
    assert(loaded_presets(none).len() == 0);
}

/// Keeps the presets that loaded; an error when none did.
pub fn collect_loaded_presets<C>(results: Vec<Result<PresetEntity<C>, ZError>>) -> (res: Result<
    Vec<PresetEntity<C>>,
    ZError,
>)
    ensures
        match res {
            Ok(p) => p@ == loaded_presets(results@) && p@.len() > 0,
            Err(e) => loaded_presets(results@).len() == 0 && is_message(
                e,
                "Did not manage to load any presets"@,
            ),
        },
{
    let ghost all = results@;
    let mut results = results;
    let mut presets: Vec<PresetEntity<C>> = Vec::new();
    while results.len() > 0
        invariant
            results@.len() <= all.len(),
            results@ == all.take(results@.len() as int),
            presets@ == loaded_presets(all.skip(results@.len() as int)),
        decreases results@.len(),
    {
        let ghost k = results@.len() as int;
        let r = results.pop().unwrap();
        assert(results@ =~= all.take(k - 1));
        assert(all.skip(k - 1).drop_first() =~= all.skip(k));
        assert(all.skip(k - 1)[0] == r);
        match r {
            Ok(p) => presets.insert(0, p),
            Err(_) => {},
        }
        assert(presets@ =~= loaded_presets(all.skip(k - 1)));
    }
    assert(all.skip(0) =~= all);
    if presets.len() == 0 {
        return Err(ZError::message("Did not manage to load any presets"));
    }
    Ok(presets)
}

/// The file's name is a preset's name followed by `.json`.
pub open spec fn json_file_name(file_name: Seq<char>, name: Seq<char>) -> bool {
    file_name == name + seq!['.', 'j', 's', 'o', 'n']
}

/// The name of the preset saved in a file: the file's name without its `.json` ending,
/// or nothing if it does not end so.
pub fn preset_name_from_file_name(file_name: &str) -> (res: Option<String>)
    ensures
        match res {
            Some(name) => json_file_name(file_name@, name@),
            None => forall|name: Seq<char>| !json_file_name(file_name@, name),
        },
{
    let n = file_name.unicode_len();
    if n < 5 {
        proof {
            assert forall|name: Seq<char>| !json_file_name(file_name@, name) by {
                if json_file_name(file_name@, name) {
                    assert(file_name@.len() == name.len() + 5);
                }
            }
        }
        return None;
    }
    let ends_with_json = file_name.get_char(n - 5) == '.' && file_name.get_char(n - 4) == 'j'
        && file_name.get_char(n - 3) == 's' && file_name.get_char(n - 2) == 'o'
        && file_name.get_char(n - 1) == 'n';
    if ends_with_json {
        let stem = file_name.substring_char(0, n - 5);
        let name = String::from_str(stem);
        assert(file_name@ =~= name@ + seq!['.', 'j', 's', 'o', 'n']);
        Some(name)
    } else {
        proof {
            assert forall|name: Seq<char>| !json_file_name(file_name@, name) by {
                if json_file_name(file_name@, name) {
                    let t = seq!['.', 'j', 's', 'o', 'n'];
                    assert(file_name@.len() == name.len() + 5);
                    assert(file_name@[n - 5] == t[0]);
                    assert(file_name@[n - 4] == t[1]);
                    assert(file_name@[n - 3] == t[2]);
                    assert(file_name@[n - 2] == t[3]);
                    assert(file_name@[n - 1] == t[4]);
                }
            }
        }
        None
    }
}

} // verus!
