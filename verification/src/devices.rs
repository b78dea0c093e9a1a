//! Picking a device by name, and the lists of devices shown to the user.

use crate::error::{DeviceFault, RecorderError};
use crate::text::{
    concat2, concat3, contains_text, decimal_string, decimal_text, has_substring, same_text,
};
use crate::video::ScreenSize;
use vstd::prelude::*;

verus! {

/// The first position, from `from` on, of a name equal to the wanted one.
pub open spec fn first_equal(names: Seq<Seq<char>>, wanted: Seq<char>, from: nat) -> Option<nat>
    decreases names.len() - from,
{
    if from >= names.len() {
        None
    } else if names[from as int] == wanted {
        Some(from)
    } else {
        first_equal(names, wanted, from + 1)
    }
}

/// The first position, from `from` on, of a name that holds the wanted one.
pub open spec fn first_containing(names: Seq<Seq<char>>, wanted: Seq<char>, from: nat) -> Option<
    nat,
>
    decreases names.len() - from,
{
    if from >= names.len() {
        None
    } else if contains_text(names[from as int], wanted) {
        Some(from)
    } else {
        first_containing(names, wanted, from + 1)
    }
}

/// The device that a name resolves to: the first of that very name; else the
/// first whose name holds it; else the first device; none where there is no
/// device.
pub open spec fn resolved_device(names: Seq<Seq<char>>, wanted: Seq<char>) -> Option<nat> {
    match first_equal(names, wanted, 0) {
        Some(i) => Some(i),
        None => match first_containing(names, wanted, 0) {
            Some(i) => Some(i),
            None => if names.len() > 0 {
                Some(0)
            } else {
                None
            },
        },
    }
}

fn find_equal(names: &Vec<String>, wanted: &str) -> (r: Option<usize>)
    ensures
        match r {
            Some(i) => first_equal(names.deep_view(), wanted@, 0) == Some(i as nat),
            None => first_equal(names.deep_view(), wanted@, 0) is None,
        },
{
    let mut i: usize = 0;
    while i < names.len()
        invariant
            i <= names.len(),
            names.deep_view().len() == names.len(),
            first_equal(names.deep_view(), wanted@, 0) == first_equal(
                names.deep_view(),
                wanted@,
                i as nat,
            ),
        decreases names.len() - i,
    {
        assert(names.deep_view()[i as int] == names[i as int]@);
        if same_text(names[i].as_str(), wanted) {
            return Some(i);
        }
        i += 1;
    }
    None
}

fn find_containing(names: &Vec<String>, wanted: &str) -> (r: Option<usize>)
    ensures
        match r {
            Some(i) => first_containing(names.deep_view(), wanted@, 0) == Some(i as nat),
            None => first_containing(names.deep_view(), wanted@, 0) is None,
        },
{
    let mut i: usize = 0;
    while i < names.len()
        invariant
            i <= names.len(),
            names.deep_view().len() == names.len(),
            first_containing(names.deep_view(), wanted@, 0) == first_containing(
                names.deep_view(),
                wanted@,
                i as nat,
            ),
        decreases names.len() - i,
    {
        assert(names.deep_view()[i as int] == names[i as int]@);
        if has_substring(names[i].as_str(), wanted) {
            return Some(i);
        }
        i += 1;
    }
    None
}

/// Resolves a device name among the devices of the host: by the very name,
/// else by a name that holds it, else the first device.
pub fn resolve_device(names: &Vec<String>, wanted: &str) -> (r: Option<usize>)
    ensures
        match r {
            Some(i) => resolved_device(names.deep_view(), wanted@) == Some(i as nat) && i
                < names.len(),
            None => resolved_device(names.deep_view(), wanted@) is None && names.len() == 0,
        },
{
    proof {
        lemma_first_equal_in_range(names.deep_view(), wanted@, 0);
        lemma_first_containing_in_range(names.deep_view(), wanted@, 0);
    }
    if let Some(i) = find_equal(names, wanted) {
        return Some(i);
    }
    if let Some(i) = find_containing(names, wanted) {
        return Some(i);
    }
    if names.len() > 0 {
        Some(0)
    } else {
        None
    }
}

proof fn lemma_first_equal_in_range(names: Seq<Seq<char>>, wanted: Seq<char>, from: nat)
    ensures
        first_equal(names, wanted, from) is Some ==> first_equal(names, wanted, from)->Some_0
            < names.len(),
    decreases names.len() - from,
{
    if from < names.len() && names[from as int] != wanted {
        lemma_first_equal_in_range(names, wanted, from + 1);
    }
}

proof fn lemma_first_containing_in_range(names: Seq<Seq<char>>, wanted: Seq<char>, from: nat)
    ensures
        first_containing(names, wanted, from) is Some ==> first_containing(
            names,
            wanted,
            from,
        )->Some_0 < names.len(),
    decreases names.len() - from,
{
    if from < names.len() && !contains_text(names[from as int], wanted) {
        lemma_first_containing_in_range(names, wanted, from + 1);
    }
}

/// The camera that a name resolves to, or the fault that no camera exists.
pub fn find_camera_index(names: &Vec<String>, camera_name: &str) -> (r: Result<
    usize,
    RecorderError,
>)
    ensures
        match r {
            Ok(i) => resolved_device(names.deep_view(), camera_name@) == Some(i as nat) && i
                < names.len(),
            Err(e) => names.len() == 0 && e == RecorderError::DeviceUnavailable(
                DeviceFault::NoCamera,
            ),
        },
{
    match resolve_device(names, camera_name) {
        Some(i) => Ok(i),
        None => Err(RecorderError::DeviceUnavailable(DeviceFault::NoCamera)),
    }
}

/// The audio input that a name resolves to, or the fault that no input
/// exists.
pub fn find_audio_device(names: &Vec<String>, device_name: &str) -> (r: Result<
    usize,
    RecorderError,
>)
    ensures
        match r {
            Ok(i) => resolved_device(names.deep_view(), device_name@) == Some(i as nat) && i
                < names.len(),
            Err(e) => names.len() == 0 && e == RecorderError::DeviceUnavailable(
                DeviceFault::NoAudioInput,
            ),
        },
{
    match resolve_device(names, device_name) {
        Some(i) => Ok(i),
        None => Err(RecorderError::DeviceUnavailable(DeviceFault::NoAudioInput)),
    }
}

/// A list of names as it is shown: the names that were found, or the one
/// stand-in where none was.
pub open spec fn shown_names(found: Seq<Seq<char>>, stand_in: Seq<char>) -> Seq<Seq<char>> {
    if found.len() == 0 {
        Seq::<Seq<char>>::empty().push(stand_in)
    } else {
        found
    }
}

fn names_or_stand_in(found: Vec<String>, stand_in: &str) -> (names: Vec<String>)
    ensures
        names.deep_view() == shown_names(found.deep_view(), stand_in@),
{
    if found.len() == 0 {
        let mut names: Vec<String> = Vec::new();
        names.push(String::from_str(stand_in));
        assert(names.deep_view() =~= shown_names(found.deep_view(), stand_in@));
        names
    } else {
        found
    }
}

/// The cameras to choose from: those that were found, or a single stand-in.
pub fn get_available_webcams(found: Vec<String>) -> (names: Vec<String>)
    ensures
        names.deep_view() == shown_names(found.deep_view(), "Default Webcam"@),
{
    names_or_stand_in(found, "Default Webcam")
}

/// The first list, from `from` on, that holds a name.
pub open spec fn first_nonempty(lists: Seq<Seq<Seq<char>>>, from: nat) -> Seq<Seq<char>>
    decreases lists.len() - from,
{
    if from >= lists.len() {
        Seq::<Seq<char>>::empty()
    } else if lists[from as int].len() > 0 {
        lists[from as int]
    } else {
        first_nonempty(lists, from + 1)
    }
}

/// The audio inputs to choose from, given the inputs of each audio host in
/// the order of preference: those of the first host that has any, or a single
/// stand-in.
pub fn get_available_devices(per_host: Vec<Vec<String>>) -> (names: Vec<String>)
    ensures
        names.deep_view() == shown_names(first_nonempty(per_host.deep_view(), 0), "default"@),
{
    let mut hosts = per_host;
    let ghost lists = hosts.deep_view();
    let mut i: usize = 0;
    while i < hosts.len()
        invariant
            i <= hosts.len(),
            hosts.deep_view() == lists,
            lists == per_host.deep_view(),
            lists.len() == hosts.len(),
            first_nonempty(lists, 0) == first_nonempty(lists, i as nat),
        decreases hosts.len() - i,
    {
        assert(lists[i as int] == hosts[i as int].deep_view());
        if hosts[i].len() > 0 {
            let ghost target = hosts@[i as int];
            assert(lists[i as int].len() == hosts@[i as int]@.len());
            let found = hosts.swap_remove(i);
            assert(found == target);
            assert(found.deep_view() == lists[i as int]);
            return found;
        }
        i += 1;
    }
    names_or_stand_in(Vec::new(), "default")
}

/// The label of a display: its position and its resolution.
pub open spec fn screen_label(index: nat, size: ScreenSize) -> Seq<char> {
    "Screen "@ + decimal_text(index) + " ("@ + decimal_text(size.width as nat) + "x"@
        + decimal_text(size.height as nat)
}

/// The labels of the displays, in their order.
pub open spec fn screen_labels(screens: Seq<ScreenSize>) -> Seq<Seq<char>> {
    Seq::new(screens.len(), |i: int| screen_label(i as nat, screens[i]))
}

/// The displays to choose from: a label for each display that was found, or
/// a single stand-in.
pub fn get_available_screens(screens: &Vec<ScreenSize>) -> (names: Vec<String>)
    ensures
        names.deep_view() == shown_names(screen_labels(screens@), "Primary Screen"@),
{
    let mut labels: Vec<String> = Vec::new();
    let mut i: usize = 0;
    while i < screens.len()
        invariant
            i <= screens.len(),
            labels.deep_view() == screen_labels(screens@.take(i as int)),
        decreases screens.len() - i,
    {
        let ghost before = labels.deep_view();
        let index = decimal_string(i as u64);
        let width = decimal_string(screens[i].width as u64);
        let height = decimal_string(screens[i].height as u64);
        let head = concat3("Screen ", index.as_str(), " (");
        let size = concat3(width.as_str(), "x", height.as_str());
        let label = concat2(head.as_str(), size.as_str());
        assert(label@ =~= screen_label(i as nat, screens@[i as int]));
        labels.push(label);
        assert(labels.deep_view() =~= before.push(screen_label(i as nat, screens@[i as int])));
        assert(labels.deep_view() =~= screen_labels(screens@.take(i + 1)));
        i += 1;
    }
    assert(screens@.take(screens.len() as int) =~= screens@);
    names_or_stand_in(labels, "Primary Screen")
}

} // verus!
