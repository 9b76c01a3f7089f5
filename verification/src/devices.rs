//! Input devices: which files are event devices, which of them are new, and which look like a
//! virtual keyboard.

use crate::text::{contains, law_occurs, occurs_at, occurs_in, starts_with};
use vstd::prelude::*;
use vstd::utf8::{decode_utf8, encode_utf8, is_ascii_chars, valid_utf8};

verus! {

/// The directory of the input devices.
pub const DEVICE_DIR: &'static str = "/dev/input";

/// What `String::from_utf8_lossy` makes of bytes.
pub uninterp spec fn utf8_lossy(bytes: Seq<u8>) -> Seq<char>;

/// What `str::to_lowercase` makes of a text.
pub uninterp spec fn unicode_lowercase(text: Seq<char>) -> Seq<char>;

/// `String::from_utf8_lossy`. Taken on trust: its result depends on the bytes alone, and valid
/// UTF-8 comes out as the text that it encodes. How bytes that are not valid UTF-8 come out is
/// not said.
#[verifier::external_body]
fn from_utf8_lossy(bytes: &[u8]) -> (r: String)
    ensures
        r@ == utf8_lossy(bytes@),
        valid_utf8(bytes@) ==> r@ == decode_utf8(bytes@),
{
    String::from_utf8_lossy(bytes).into_owned()
}

/// `str::to_lowercase`. Taken on trust: its result depends on the text alone; of a text in ASCII
/// it changes the letters 'A' to 'Z' and nothing else; and of any text it makes what it makes of
/// that text with the letters 'A' to 'Z' in lower case. How other letters come out is not said.
#[verifier::external_body]
fn to_lowercase(text: &str) -> (r: String)
    ensures
        r@ == unicode_lowercase(text@),
        r@ == unicode_lowercase(ascii_lowered(text@)),
        is_ascii_chars(text@) ==> r@ == ascii_lowered(text@),
{
    text.to_lowercase()
}

/// A character of ASCII in lower case.
pub open spec fn ascii_lower(c: char) -> char {
    if 'A' <= c <= 'Z' {
        ((c as u32) + 32) as char
    } else {
        c
    }
}

/// A text with its letters of ASCII in lower case.
pub open spec fn ascii_lowered(text: Seq<char>) -> Seq<char> {
    text.map_values(|c: char| ascii_lower(c))
}

/// A file name as text.
pub open spec fn name_text(name: Seq<u8>) -> Seq<char> {
    if valid_utf8(name) {
        decode_utf8(name)
    } else {
        utf8_lossy(name)
    }
}

/// A text in lower case. The case of its letters of ASCII makes no difference.
pub open spec fn lower_text(text: Seq<char>) -> Seq<char> {
    if is_ascii_chars(text) {
        ascii_lowered(text)
    } else {
        unicode_lowercase(ascii_lowered(text))
    }
}

/// Whether a file name, as text, is that of an event device.
pub open spec fn is_event_name(text: Seq<char>) -> bool {
    "event"@.is_prefix_of(text)
}

/// The event devices among the names of a directory, each once, in the directory's order.
pub open spec fn event_devices(names: Seq<Seq<u8>>) -> Seq<Seq<u8>>
    decreases names.len(),
{
    if names.len() == 0 {
        Seq::empty()
    } else {
        with_entry(event_devices(names.drop_last()), names.last(), name_text(names.last()))
    }
}

/// The devices with one more entry of a directory looked at.
pub open spec fn with_entry(devices: Seq<Seq<u8>>, name: Seq<u8>, text: Seq<char>) -> Seq<
    Seq<u8>,
> {
    if is_event_name(text) && !devices.contains(name) {
        devices.push(name)
    } else {
        devices
    }
}

/// What reading the device directory has shown.
pub enum Directory {
    /// It is not there.
    Absent,
    /// It could not be read.
    Unreadable,
    /// It was read, and these are the names of its files. An entry that could not be read has
    /// none.
    Entries(Vec<Option<Vec<u8>>>),
}

/// The names of the entries of a directory, where each has one.
pub open spec fn entry_names(entries: Seq<Option<Seq<u8>>>) -> Seq<Seq<u8>> {
    entries.map_values(|entry: Option<Seq<u8>>| entry->0)
}

/// The event devices in a directory, or none where they could not be listed: the directory could
/// not be read, or one of its entries. A directory that is not there holds no devices.
pub open spec fn listed_devices(directory: Directory) -> Option<Seq<Seq<u8>>> {
    match directory {
        Directory::Absent => Some(Seq::empty()),
        Directory::Unreadable => None,
        Directory::Entries(entries) => if forall|i: int|
            0 <= i < entries.deep_view().len() ==> #[trigger] entries.deep_view()[i] is Some {
            Some(event_devices(entry_names(entries.deep_view())))
        } else {
            None
        },
    }
}

/// The first of the current devices that is not among the existing ones.
pub open spec fn first_new(current: Seq<Seq<u8>>, existing: Seq<Seq<u8>>) -> Option<Seq<u8>>
    decreases current.len(),
{
    if current.len() == 0 {
        None
    } else if !existing.contains(current[0]) {
        Some(current[0])
    } else {
        first_new(current.drop_first(), existing)
    }
}

/// The device that a file of the given name, as text, is, if it is an event device and is not
/// among the existing ones.
pub open spec fn new_device(text: Seq<char>, existing: Seq<Seq<u8>>) -> Option<Seq<u8>> {
    if is_event_name(text) && !existing.contains(encode_utf8(text)) {
        Some(encode_utf8(text))
    } else {
        None
    }
}

/// Whether a device's name, in lower case, is one that a virtual keyboard has: one made by
/// uinput or called virtual, but not that of ydotool.
pub open spec fn looks_virtual(lower: Seq<char>) -> bool {
    &&& occurs_in("uinput"@, lower) || occurs_in("virtual"@, lower)
    &&& !occurs_in("ydotool"@, lower)
}

/// What opening a device has shown of it.
pub enum Probe {
    /// It could not be opened.
    Unopened,
    /// It was opened, and this is its name, if it has one.
    Opened(Option<String>),
}

/// Whether a device that was probed looks like a virtual keyboard. One without a name does
/// not, nor does one that could not be opened.
pub open spec fn probed_virtual(probe: Probe) -> bool {
    match probe {
        Probe::Opened(Some(name)) => looks_virtual(lower_text(name@)),
        _ => false,
    }
}

/// A file name as text, with what is not valid UTF-8 in it replaced.
pub fn text_of_name(name: &Vec<u8>) -> (r: String)
    ensures
        r@ == name_text(name@),
{
    from_utf8_lossy(name.as_slice())
}

/// Tells whether a device's name, in lower case, looks like that of a virtual keyboard.
pub fn looks_virtual_keyboard(lower: &str) -> (r: bool)
    ensures
        r == looks_virtual(lower@),
{
    (contains(lower, "uinput") || contains(lower, "virtual")) && !contains(lower, "ydotool")
}

/// Tells whether a probed device looks like a virtual keyboard.
pub fn is_virtual_keyboard(probe: &Probe) -> (r: bool)
    ensures
        r == probed_virtual(*probe),
        probe matches Probe::Opened(Some(name)) ==> r == looks_virtual(unicode_lowercase(name@)),
{
    match probe {
        Probe::Opened(Some(name)) => looks_virtual_keyboard(to_lowercase(name.as_str()).as_str()),
        _ => false,
    }
}

/// Tells whether a file name, as text, is that of an event device.
pub fn names_event_device(text: &str) -> (r: bool)
    ensures
        r == is_event_name(text@),
{
    starts_with(text, "event")
}

/// Tells whether two names are the same, byte for byte.
fn same_name(a: &Vec<u8>, b: &Vec<u8>) -> (r: bool)
    ensures
        r == (a@ == b@),
{
    if a.len() != b.len() {
        return false;
    }
    let mut i: usize = 0;
    while i < a.len()
        invariant
            a.len() == b.len(),
            i <= a.len(),
            forall|k: int| 0 <= k < i ==> a[k] == b[k],
        decreases a.len() - i,
    {
        if a[i] != b[i] {
            return false;
        }
        i = i + 1;
    }
    assert(a@ == b@);
    true
}

/// A set of devices, by the names of their files, in the order in which they were found.
pub struct DeviceSet {
    names: Vec<Vec<u8>>,
}

impl View for DeviceSet {
    type V = Seq<Seq<u8>>;

    closed spec fn view(&self) -> Seq<Seq<u8>> {
        self.names.deep_view()
    }
}

impl DeviceSet {
    /// No device occurs twice.
    pub open spec fn wf(&self) -> bool {
        self@.no_duplicates()
    }

    /// No devices.
    pub fn new() -> (r: DeviceSet)
        ensures
            r.wf(),
            r@ == Seq::<Seq<u8>>::empty(),
    {
        let r = DeviceSet { names: Vec::new() };
        assert(r@ == Seq::<Seq<u8>>::empty());
        r
    }

    /// The same devices once more.
    pub fn copy(&self) -> (r: DeviceSet)
        ensures
            r@ == self@,
    {
        DeviceSet { names: self.names.clone() }
    }

    /// How many devices there are.
    pub fn len(&self) -> (r: usize)
        ensures
            r == self@.len(),
    {
        self.names.len()
    }

    /// The first device, if there is any.
    pub fn first(&self) -> (r: Option<Vec<u8>>)
        ensures
            r.deep_view() == (if self@.len() > 0 {
                Some(self@[0])
            } else {
                None
            }),
    {
        if self.names.len() > 0 {
            Some(self.names[0].clone())
        } else {
            None
        }
    }

    /// Tells whether a device is there.
    pub fn contains(&self, name: &Vec<u8>) -> (r: bool)
        ensures
            r == self@.contains(name@),
    {
        let mut i: usize = 0;
        while i < self.names.len()
            invariant
                i <= self.names.len(),
                self@.len() == self.names.len(),
                forall|k: int| 0 <= k < i ==> #[trigger] self@[k] != name@,
            decreases self.names.len() - i,
        {
            assert(self@[i as int] == self.names[i as int]@);
            if same_name(&self.names[i], name) {
                return true;
            }
            i = i + 1;
        }
        false
    }

    /// Looks at an entry of a directory, by its name and that name as text, and takes it in if
    /// it is an event device.
    pub fn add_entry(&mut self, name: &Vec<u8>, text: &str)
        requires
            old(self).wf(),
        ensures
            final(self).wf(),
            final(self)@ == with_entry(old(self)@, name@, text@),
    {
        if names_event_device(text) && !self.contains(name) {
            let copy: Vec<u8> = name.clone();
            assert(copy.deep_view() == name@);
            self.names.push(copy);
            assert(self@ == old(self)@.push(name@));
        }
    }

    /// The first of these devices that is not among the existing ones.
    pub fn first_not_in(&self, existing: &DeviceSet) -> (r: Option<Vec<u8>>)
        ensures
            r.deep_view() == first_new(self@, existing@),
    {
        let mut i: usize = 0;
        assert(self@.skip(0) == self@);
        while i < self.names.len()
            invariant
                i <= self.names.len(),
                self@.len() == self.names.len(),
                first_new(self@, existing@) == first_new(self@.skip(i as int), existing@),
            decreases self.names.len() - i,
        {
            assert(self@[i as int] == self.names[i as int]@);
            assert(self@.skip(i as int).drop_first() == self@.skip(i + 1));
            if !existing.contains(&self.names[i]) {
                return Some(self.names[i].clone());
            }
            i = i + 1;
        }
        None
    }

    /// The device that a file of the given name, as text, is, if it is an event device and is
    /// not among these.
    pub fn new_device(&self, text: &str) -> (r: Option<Vec<u8>>)
        ensures
            r.deep_view() == new_device(text@, self@),
    {
        if !names_event_device(text) {
            return None;
        }
        let name: Vec<u8> = text.as_bytes_vec();
        if self.contains(&name) {
            None
        } else {
            Some(name)
        }
    }
}

/// The event devices among the files in the device directory, or none where they could not be
/// listed.
pub fn list_event_devices(directory: &Directory) -> (r: Option<DeviceSet>)
    ensures
        r is Some <==> listed_devices(*directory) is Some,
        r matches Some(devices) ==> devices.wf() && listed_devices(*directory) == Some(devices@),
{
    match directory {
        Directory::Absent => Some(DeviceSet::new()),
        Directory::Unreadable => None,
        Directory::Entries(entries) => {
            let ghost all = entries.deep_view();
            let mut devices: DeviceSet = DeviceSet::new();
            let mut i: usize = 0;
            assert(entry_names(all).take(0) == Seq::<Seq<u8>>::empty());
            while i < entries.len()
                invariant
                    *directory == Directory::Entries(*entries),
                    all == entries.deep_view(),
                    i <= entries.len(),
                    devices.wf(),
                    forall|k: int| 0 <= k < i ==> #[trigger] all[k] is Some,
                    devices@ == event_devices(entry_names(all).take(i as int)),
                decreases entries.len() - i,
            {
                let ghost names = entry_names(all);
                match &entries[i] {
                    Some(name) => {
                        assert(name.deep_view() == name@);
                        assert(all[i as int] == Some(name@));
                        let text: String = text_of_name(name);
                        devices.add_entry(name, text.as_str());
                        assert(names.take(i + 1).drop_last() == names.take(i as int));
                    },
                    None => {
                        assert(all[i as int] is None);
                        return None;
                    },
                }
                i = i + 1;
            }
            assert(entry_names(all).take(i as int) == entry_names(all));
            Some(devices)
        },
    }
}

/// What is listed for a directory are its event devices: exactly the files whose names begin with
/// "event", wherever in the directory they stand and however many there are, each once. The listing
/// fails exactly if the directory, or one of its entries, could not be read. A directory that is
/// not there has no devices.
pub proof fn law_listing(directory: Directory)
    ensures
        listed_devices(directory) is None <==> {
            ||| directory is Unreadable
            ||| directory matches Directory::Entries(entries) && entries.deep_view().contains(None)
        },
        directory is Absent ==> listed_devices(directory) == Some(Seq::<Seq<u8>>::empty()),
        directory matches Directory::Entries(entries) ==> (listed_devices(directory) matches Some(
            devices,
        ) ==> devices.no_duplicates() && forall|name: Seq<u8>| #[trigger]
            devices.contains(name) <==> entries.deep_view().contains(Some(name))
                && "event"@.is_prefix_of(name_text(name))),
{
    if let Directory::Entries(entries) = directory {
        let all = entries.deep_view();
        if all.contains(None) {
            let i = choose|i: int| 0 <= i < all.len() && all[i] == None::<Seq<u8>>;
            assert(!(all[i] is Some));
        } else {
            assert forall|i: int| 0 <= i < all.len() implies #[trigger] all[i] is Some by {
                assert(all.contains(all[i]));
            }
            let names = entry_names(all);
            law_event_devices(names);
            assert forall|name: Seq<u8>| #[trigger] names.contains(name) <==> all.contains(
                Some(name),
            ) by {
                if names.contains(name) {
                    let i = choose|i: int| 0 <= i < names.len() && names[i] == name;
                    assert(all[i] == Some(name));
                }
                if all.contains(Some(name)) {
                    let i = choose|i: int| 0 <= i < all.len() && all[i] == Some(name);
                    assert(names[i] == name);
                }
            }
            assert forall|name: Seq<u8>| #[trigger]
                event_devices(names).contains(name) <==> all.contains(Some(name))
                    && "event"@.is_prefix_of(name_text(name)) by {
                assert(names.contains(name) <==> all.contains(Some(name)));
            }
        }
    }
}

/// Further entries of a directory take nothing from the devices listed so far, and change nothing
/// in their order.
pub proof fn law_listing_grows(first: Seq<Seq<u8>>, second: Seq<Seq<u8>>)
    ensures
        event_devices(first).is_prefix_of(event_devices(first + second)),
    decreases second.len(),
{
    if second.len() == 0 {
        assert(first + second == first);
    } else {
        law_listing_grows(first, second.drop_last());
        assert((first + second).drop_last() == first + second.drop_last());
    }
}

/// Looking at an entry takes in the entry, at the end, exactly if its text begins with "event" and
/// it is not there yet, and leaves the other devices as they are.
pub proof fn law_entry(devices: Seq<Seq<u8>>, name: Seq<u8>, text: Seq<char>)
    ensures
        devices.is_prefix_of(with_entry(devices, name, text)),
        with_entry(devices, name, text).len() <= devices.len() + 1,
        with_entry(devices, name, text).len() > devices.len() <==> "event"@.is_prefix_of(text)
            && !devices.contains(name),
        with_entry(devices, name, text).len() > devices.len() ==> with_entry(
            devices,
            name,
            text,
        ).last() == name,
        "event"@.is_prefix_of(text) ==> with_entry(devices, name, text).contains(name),
{
    if is_event_name(text) && !devices.contains(name) {
        assert(devices.push(name)[devices.len() as int] == name);
    }
}

/// A new device is found exactly if there is one, and what is found is there now and was not
/// there before, while all that stand before it were.
pub proof fn law_first_new(current: Seq<Seq<u8>>, existing: Seq<Seq<u8>>)
    ensures
        first_new(current, existing) is None <==> (forall|name: Seq<u8>| #[trigger]
            current.contains(name) ==> existing.contains(name)),
        first_new(current, existing) matches Some(name) ==> current.contains(name)
            && !existing.contains(name),
        first_new(current, existing) matches Some(name) ==> exists|i: int|
            0 <= i < current.len() && #[trigger] current[i] == name && forall|k: int|
                0 <= k < i ==> existing.contains(#[trigger] current[k]),
    decreases current.len(),
{
    if current.len() > 0 {
        if let Some(name) = first_new(current, existing) {
            if existing.contains(current[0]) {
                let rest = current.drop_first();
                law_first_new(rest, existing);
                let i = choose|i: int|
                    0 <= i < rest.len() && #[trigger] rest[i] == name && forall|k: int|
                        0 <= k < i ==> existing.contains(#[trigger] rest[k]);
                assert(current[i + 1] == name);
                assert forall|k: int| 0 <= k < i + 1 implies existing.contains(
                    #[trigger] current[k],
                ) by {
                    if k > 0 {
                        assert(rest[k - 1] == current[k]);
                    }
                }
            } else {
                assert(current[0] == name);
            }
        }
        let rest = current.drop_first();
        law_first_new(rest, existing);
        assert(current.contains(current[0]));
        assert forall|name: Seq<u8>| #[trigger] current.contains(name) implies name == current[0]
            || rest.contains(name) by {
            let i = choose|i: int| 0 <= i < current.len() && current[i] == name;
            if i > 0 {
                assert(rest[i - 1] == name);
            }
        }
        assert forall|name: Seq<u8>| #[trigger] rest.contains(name) implies current.contains(
            name,
        ) by {
            let i = choose|i: int| 0 <= i < rest.len() && rest[i] == name;
            assert(current[i + 1] == name);
        }
    }
}

/// The devices listed are the event devices of the directory: each of them, each once, and
/// nothing else.
pub proof fn law_event_devices(names: Seq<Seq<u8>>)
    ensures
        event_devices(names).no_duplicates(),
        forall|name: Seq<u8>| #[trigger]
            event_devices(names).contains(name) <==> names.contains(name) && is_event_name(
                name_text(name),
            ),
    decreases names.len(),
{
    if names.len() > 0 {
        let before = names.drop_last();
        law_event_devices(before);
        let listed = event_devices(before);
        let last = names.last();
        assert forall|name: Seq<u8>| names.contains(name) <==> before.contains(name) || name
            == last by {
            if names.contains(name) {
                let i = choose|i: int| 0 <= i < names.len() && names[i] == name;
                if i < before.len() {
                    assert(before[i] == name);
                }
            }
            if before.contains(name) {
                let i = choose|i: int| 0 <= i < before.len() && before[i] == name;
                assert(names[i] == name);
            }
            assert(names[names.len() - 1] == last);
        }
        assert forall|name: Seq<u8>| #[trigger]
            listed.push(last).contains(name) <==> listed.contains(name) || name == last by {
            if listed.contains(name) {
                let i = choose|i: int| 0 <= i < listed.len() && listed[i] == name;
                assert(listed.push(last)[i] == name);
            }
            assert(listed.push(last)[listed.len() as int] == last);
        }
    }
}

/// The case of letters of ASCII makes no difference: two names that differ in nothing else,
/// whatever other letters they hold, both look like a virtual keyboard, or neither does.
pub proof fn law_case_of_names(a: String, b: String)
    requires
        ascii_lowered(a@) == ascii_lowered(b@),
    ensures
        probed_virtual(Probe::Opened(Some(a))) == probed_virtual(Probe::Opened(Some(b))),
{
    lemma_ascii_lowered(a@);
    lemma_ascii_lowered(b@);
}

/// Whether a character is a letter in lower case, or the same letter in upper case.
pub open spec fn is_letter(c: char, lower: char) -> bool {
    c == lower || ('a' <= lower <= 'z' && c as u32 + 32 == lower as u32)
}

/// Whether a text holds a word, which is given in lower case, in whatever case.
pub open spec fn holds_word(text: Seq<char>, word: Seq<char>) -> bool {
    exists|at: int| #[trigger] holds_word_at(text, word, at)
}

/// Whether a word, which is given in lower case, stands at a position of a text, in whatever case.
pub open spec fn holds_word_at(text: Seq<char>, word: Seq<char>, at: int) -> bool {
    &&& 0 <= at
    &&& at + word.len() <= text.len()
    &&& forall|k: int| 0 <= k < word.len() ==> is_letter(text[at + k], #[trigger] word[k])
}

/// A device with a name in ASCII looks like a virtual keyboard exactly if the name holds the word
/// "uinput" or the word "virtual", and does not hold "ydotool", in whatever case, and wherever in
/// the name they stand.
pub proof fn law_virtual_names(name: String)
    requires
        is_ascii_chars(name@),
    ensures
        probed_virtual(Probe::Opened(Some(name))) <==> {
            &&& holds_word(name@, "uinput"@) || holds_word(name@, "virtual"@)
            &&& !holds_word(name@, "ydotool"@)
        },
{
    reveal_strlit("uinput");
    reveal_strlit("virtual");
    reveal_strlit("ydotool");
    lemma_holds_word(name@, "uinput"@);
    lemma_holds_word(name@, "virtual"@);
    lemma_holds_word(name@, "ydotool"@);
}

/// A device whose name is not in ASCII goes by its name in lower case in the same way.
pub proof fn law_other_names(name: String)
    requires
        !is_ascii_chars(name@),
    ensures
        probed_virtual(Probe::Opened(Some(name))) <==> ({
            let lower = unicode_lowercase(ascii_lowered(name@));
            &&& (exists|a: Seq<char>, b: Seq<char>| lower == #[trigger] (a + "uinput"@ + b)) || (
            exists|a: Seq<char>, b: Seq<char>| lower == #[trigger] (a + "virtual"@ + b))
            &&& !(exists|a: Seq<char>, b: Seq<char>| lower == #[trigger] (a + "ydotool"@ + b))
        }),
{
    let lower = unicode_lowercase(ascii_lowered(name@));
    law_occurs("uinput"@, lower);
    law_occurs("virtual"@, lower);
    law_occurs("ydotool"@, lower);
}

/// Only a device that could be opened, and has a name, can look like a virtual keyboard.
pub proof fn law_virtual_has_name(probe: Probe)
    ensures
        probed_virtual(probe) ==> (probe matches Probe::Opened(name) && name is Some),
{
}

proof fn lemma_holds_word(text: Seq<char>, word: Seq<char>)
    requires
        forall|k: int| 0 <= k < word.len() ==> 'a' <= #[trigger] word[k] <= 'z',
    ensures
        occurs_in(word, ascii_lowered(text)) <==> holds_word(text, word),
{
    let lowered = ascii_lowered(text);
    assert forall|at: int| #[trigger] occurs_at(word, lowered, at) <==> holds_word_at(
        text,
        word,
        at,
    ) by {
        if 0 <= at && at + word.len() <= text.len() {
            let found = lowered.subrange(at, at + word.len());
            assert forall|k: int| 0 <= k < word.len() implies (found[k] == #[trigger] word[k]
                <==> is_letter(text[at + k], word[k])) by {
                assert(found[k] == ascii_lower(text[at + k]));
            }
            if found == word {
                assert(holds_word_at(text, word, at));
            }
            if holds_word_at(text, word, at) {
                assert(found == word);
            }
        }
    }
    if occurs_in(word, lowered) {
        let at = choose|at: int| #[trigger] occurs_at(word, lowered, at);
        assert(holds_word_at(text, word, at));
    }
    if holds_word(text, word) {
        let at = choose|at: int| #[trigger] holds_word_at(text, word, at);
        assert(occurs_at(word, lowered, at));
    }
}

proof fn lemma_ascii_lowered(text: Seq<char>)
    ensures
        is_ascii_chars(ascii_lowered(text)) <==> is_ascii_chars(text),
{
    let lowered = ascii_lowered(text);
    assert forall|i: int| 0 <= i < text.len() implies ('\0' <= #[trigger] text[i] <= '\u{7f}' <==>
        '\0' <= lowered[i] <= '\u{7f}') by {}
}

/// A file name that encodes a text is that text. One that encodes none is what
/// `String::from_utf8_lossy` makes of it.
pub proof fn law_name_text(text: Seq<char>, bytes: Seq<u8>)
    ensures
        name_text(encode_utf8(text)) == text,
        !valid_utf8(bytes) ==> name_text(bytes) == utf8_lossy(bytes),
{
    vstd::utf8::encode_utf8_valid_utf8(text);
    vstd::utf8::encode_utf8_decode_utf8(text);
}

/// A text is that of a new device exactly if it begins with "event" and no existing device is named
/// by it; the device is then named by that very text.
pub proof fn law_new_device_of_text(text: Seq<char>, existing: Seq<Seq<u8>>)
    ensures
        new_device(text, existing) is Some <==> "event"@.is_prefix_of(text) && !existing.contains(
            encode_utf8(text),
        ),
        new_device(text, existing) matches Some(name) ==> valid_utf8(name) && decode_utf8(name)
            == text,
{
    vstd::utf8::encode_utf8_valid_utf8(text);
    vstd::utf8::encode_utf8_decode_utf8(text);
}

/// A created file whose name is valid UTF-8 is a new device under that very name, exactly if it
/// is an event device that was not there before.
pub proof fn law_new_device(name: Seq<u8>, existing: Seq<Seq<u8>>)
    requires
        valid_utf8(name),
    ensures
        new_device(name_text(name), existing) == (if "event"@.is_prefix_of(decode_utf8(name))
            && !existing.contains(name) {
            Some(name)
        } else {
            None
        }),
{
    vstd::utf8::decode_utf8_encode_utf8(name);
}

} // verus!
