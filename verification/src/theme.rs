//! Themes and the sounds they are made of.

use vstd::prelude::*;

use crate::config::{
    count_range_of, delay_range_of, field, find_field, flag_of, level_range_of, read_count_range,
    read_delay_range, read_flag, read_level_range, read_text, text_of, ThemeFault, Value,
};
use crate::level::Level;

verus! {

/// The range of a repeat or loop count when a sound names none.
pub fn get_default_count() -> (range: (u32, u32))
    ensures
        range == (0u32, 0u32),
{
    (0, 0)
}

/// The range of a pitch or filter amount when a sound names none: exactly one.
pub fn get_default_pitch() -> (range: (Level, Level))
    ensures
        range == (1000u32, 1000u32),
{
    (1000, 1000)
}

/// The range of a delay, in milliseconds, when a sound names none.
pub fn get_default_delay() -> (range: (u64, u64))
    ensures
        range == (0u64, 0u64),
{
    (0, 0)
}

/// The range of a fade-in length when a sound names none.
pub fn get_default_fade_in() -> (range: (Level, Level))
    ensures
        range == (0u32, 0u32),
{
    (0, 0)
}

/// The reverb preset of a sound that names none.
pub fn get_default_reverb() -> (name: String)
    ensures
        name@ == "none"@,
{
    "none".to_owned()
}

/// One schedulable sound of a theme.
///
/// Every pair is an inclusive range `(low, high)` from which a value is
/// drawn each time the sound needs one.
#[derive(Debug)]
pub struct Sound {
    /// Unique within a theme; the key under which the sound is triggered.
    pub name: String,
    /// Path of the sample, relative to the sample library.
    pub file: String,
    pub volume: (Level, Level),
    /// When present, the sound only starts upon an external trigger.
    pub trigger: Option<String>,
    /// A sound that is not enabled stays dormant while the theme plays.
    pub enabled: bool,
    pub reverb: String,
    pub repeat_count: (u32, u32),
    /// Milliseconds between two repeats.
    pub repeat_delay: (u64, u64),
    pub loop_count: (u32, u32),
    /// Milliseconds before each loop iteration.
    pub loop_delay: (u64, u64),
    pub loop_forever: bool,
    pub pitch_enabled: bool,
    pub pitch: (Level, Level),
    pub lowpass_enabled: bool,
    pub lowpass: (Level, Level),
    pub highpass_enabled: bool,
    pub highpass: (Level, Level),
    pub fade_in_enabled: bool,
    /// Share of the sample over which the volume ramps up.
    pub fade_in: (Level, Level),
}

/// A named collection of sounds that is loaded as a unit.
#[derive(Debug)]
pub struct Theme {
    pub name: String,
    pub room: Option<String>,
    pub sounds: Vec<Sound>,
}

/// What a [`Sound`] says, with its strings as sequences of characters.
pub struct SoundView {
    pub name: Seq<char>,
    pub file: Seq<char>,
    pub volume: (Level, Level),
    pub trigger: Option<Seq<char>>,
    pub enabled: bool,
    pub reverb: Seq<char>,
    pub repeat_count: (u32, u32),
    pub repeat_delay: (u64, u64),
    pub loop_count: (u32, u32),
    pub loop_delay: (u64, u64),
    pub loop_forever: bool,
    pub pitch_enabled: bool,
    pub pitch: (Level, Level),
    pub lowpass_enabled: bool,
    pub lowpass: (Level, Level),
    pub highpass_enabled: bool,
    pub highpass: (Level, Level),
    pub fade_in_enabled: bool,
    pub fade_in: (Level, Level),
}

/// What a [`Theme`] says.
pub struct ThemeView {
    pub name: Seq<char>,
    pub room: Option<Seq<char>>,
    pub sounds: Seq<SoundView>,
}

impl SoundView {
    /// No range is inverted.
    pub open spec fn wf(self) -> bool {
        &&& self.volume.0 <= self.volume.1
        &&& self.repeat_count.0 <= self.repeat_count.1
        &&& self.repeat_delay.0 <= self.repeat_delay.1
        &&& self.loop_count.0 <= self.loop_count.1
        &&& self.loop_delay.0 <= self.loop_delay.1
        &&& self.pitch.0 <= self.pitch.1
        &&& self.lowpass.0 <= self.lowpass.1
        &&& self.highpass.0 <= self.highpass.1
        &&& self.fade_in.0 <= self.fade_in.1
    }

    /// The sound waits for an external trigger.
    pub open spec fn triggered(self) -> bool {
        self.trigger is Some
    }
}

impl ThemeView {
    /// Every sound of the theme is well formed.
    pub open spec fn wf(self) -> bool {
        forall|i: int| 0 <= i < self.sounds.len() ==> (#[trigger] self.sounds[i]).wf()
    }
}

impl View for Sound {
    type V = SoundView;

    open spec fn view(&self) -> SoundView {
        SoundView {
            name: self.name@,
            file: self.file@,
            volume: self.volume,
            trigger: match self.trigger {
                Some(t) => Some(t@),
                None => None,
            },
            enabled: self.enabled,
            reverb: self.reverb@,
            repeat_count: self.repeat_count,
            repeat_delay: self.repeat_delay,
            loop_count: self.loop_count,
            loop_delay: self.loop_delay,
            loop_forever: self.loop_forever,
            pitch_enabled: self.pitch_enabled,
            pitch: self.pitch,
            lowpass_enabled: self.lowpass_enabled,
            lowpass: self.lowpass,
            highpass_enabled: self.highpass_enabled,
            highpass: self.highpass,
            fade_in_enabled: self.fade_in_enabled,
            fade_in: self.fade_in,
        }
    }
}

impl View for Theme {
    type V = ThemeView;

    open spec fn view(&self) -> ThemeView {
        ThemeView {
            name: self.name@,
            room: match self.room {
                Some(r) => Some(r@),
                None => None,
            },
            sounds: Seq::new(self.sounds@.len(), |i: int| self.sounds@[i]@),
        }
    }
}

impl Sound {
    /// A sound with the given name, sample and volume range, and every other
    /// field at its default.
    pub fn new(name: String, file: String, volume: (Level, Level)) -> (sound: Sound)
        ensures
            sound@ == SoundView::with_defaults(name@, file@, volume),
    {
        Sound {
            name,
            file,
            volume,
            trigger: None,
            enabled: false,
            reverb: get_default_reverb(),
            repeat_count: get_default_count(),
            repeat_delay: get_default_delay(),
            loop_count: get_default_count(),
            loop_delay: get_default_delay(),
            loop_forever: false,
            pitch_enabled: false,
            pitch: get_default_pitch(),
            lowpass_enabled: false,
            lowpass: get_default_pitch(),
            highpass_enabled: false,
            highpass: get_default_pitch(),
            fade_in_enabled: false,
            fade_in: get_default_fade_in(),
        }
    }

    /// Tells whether no range of the sound is inverted.
    pub fn is_valid(&self) -> (valid: bool)
        ensures
            valid == self@.wf(),
    {
        self.volume.0 <= self.volume.1 && self.repeat_count.0 <= self.repeat_count.1
            && self.repeat_delay.0 <= self.repeat_delay.1 && self.loop_count.0
            <= self.loop_count.1 && self.loop_delay.0 <= self.loop_delay.1 && self.pitch.0
            <= self.pitch.1 && self.lowpass.0 <= self.lowpass.1 && self.highpass.0
            <= self.highpass.1 && self.fade_in.0 <= self.fade_in.1
    }

    /// A copy of the sound.
    pub fn duplicate(&self) -> (copy: Sound)
        ensures
            copy@ == self@,
    {
        Sound {
            name: self.name.clone(),
            file: self.file.clone(),
            volume: self.volume,
            trigger: match &self.trigger {
                Some(t) => Some(t.clone()),
                None => None,
            },
            enabled: self.enabled,
            reverb: self.reverb.clone(),
            repeat_count: self.repeat_count,
            repeat_delay: self.repeat_delay,
            loop_count: self.loop_count,
            loop_delay: self.loop_delay,
            loop_forever: self.loop_forever,
            pitch_enabled: self.pitch_enabled,
            pitch: self.pitch,
            lowpass_enabled: self.lowpass_enabled,
            lowpass: self.lowpass,
            highpass_enabled: self.highpass_enabled,
            highpass: self.highpass,
            fade_in_enabled: self.fade_in_enabled,
            fade_in: self.fade_in,
        }
    }
}

impl SoundView {
    /// The sound that names only what is required.
    pub open spec fn with_defaults(name: Seq<char>, file: Seq<char>, volume: (Level, Level)) -> SoundView {
        SoundView {
            name,
            file,
            volume,
            trigger: None,
            enabled: false,
            reverb: "none"@,
            repeat_count: (0, 0),
            repeat_delay: (0, 0),
            loop_count: (0, 0),
            loop_delay: (0, 0),
            loop_forever: false,
            pitch_enabled: false,
            pitch: (1000, 1000),
            lowpass_enabled: false,
            lowpass: (1000, 1000),
            highpass_enabled: false,
            highpass: (1000, 1000),
            fade_in_enabled: false,
            fade_in: (0, 0),
        }
    }
}

impl Theme {
    /// Tells whether every sound of the theme is valid.
    pub fn is_valid(&self) -> (valid: bool)
        ensures
            valid == self@.wf(),
    {
        let mut i: usize = 0;
        while i < self.sounds.len()
            invariant
                i <= self.sounds.len(),
                forall|j: int| 0 <= j < i ==> (#[trigger] self@.sounds[j]).wf(),
            decreases self.sounds.len() - i,
        {
            if !self.sounds[i].is_valid() {
                assert(!self@.sounds[i as int].wf());
                return false;
            }
            i += 1;
        }
        true
    }
}

/// A description that is not that of a theme, with the reason in words.
#[derive(Debug)]
pub struct ThemeParseError {
    pub message: String,
}

/// The reason `fault` in words.
pub open spec fn fault_text(fault: ThemeFault) -> Seq<char> {
    match fault {
        ThemeFault::MissingField => "Invalid theme: a required field is missing"@,
        ThemeFault::UnknownType => "Invalid theme: a field has a value of an unknown type"@,
        ThemeFault::RangeInverted => "Invalid theme: a range is inverted"@,
    }
}

impl ThemeParseError {
    /// The error that reports `fault`.
    pub fn new(fault: ThemeFault) -> (error: ThemeParseError)
        ensures
            error.message@ == fault_text(fault),
    {
        let message = match fault {
            ThemeFault::MissingField => "Invalid theme: a required field is missing".to_owned(),
            ThemeFault::UnknownType => "Invalid theme: a field has a value of an unknown type".to_owned(),
            ThemeFault::RangeInverted => "Invalid theme: a range is inverted".to_owned(),
        };
        ThemeParseError { message }
    }
}

/// The text under `key`, which must be there.
pub open spec fn required_text(entries: Seq<(String, Value)>, key: Seq<char>) -> Result<
    Seq<char>,
    ThemeFault,
> {
    match field(entries, key) {
        Some(v) => text_of(v),
        None => Err(ThemeFault::MissingField),
    }
}

/// The text under `key`, if there is one. A key without a value counts as
/// absent.
pub open spec fn optional_text(entries: Seq<(String, Value)>, key: Seq<char>) -> Result<
    Option<Seq<char>>,
    ThemeFault,
> {
    match field(entries, key) {
        Some(Value::Null) => Ok(None),
        Some(v) => match text_of(v) {
            Ok(text) => Ok(Some(text)),
            Err(fault) => Err(fault),
        },
        None => Ok(None),
    }
}

/// The text under `key`, or `default` if the key is absent.
pub open spec fn text_or(entries: Seq<(String, Value)>, key: Seq<char>, default: Seq<char>) -> Result<
    Seq<char>,
    ThemeFault,
> {
    match field(entries, key) {
        Some(v) => text_of(v),
        None => Ok(default),
    }
}

/// The flag under `key`, or false if the key is absent.
pub open spec fn flag_or_false(entries: Seq<(String, Value)>, key: Seq<char>) -> Result<
    bool,
    ThemeFault,
> {
    match field(entries, key) {
        Some(v) => flag_of(v),
        None => Ok(false),
    }
}

/// The range of levels under `key`, which must be there.
pub open spec fn required_levels(entries: Seq<(String, Value)>, key: Seq<char>) -> Result<
    (Level, Level),
    ThemeFault,
> {
    match field(entries, key) {
        Some(v) => level_range_of(v),
        None => Err(ThemeFault::MissingField),
    }
}

/// The range of levels under `key`, or `default` if the key is absent.
pub open spec fn levels_or(
    entries: Seq<(String, Value)>,
    key: Seq<char>,
    default: (Level, Level),
) -> Result<(Level, Level), ThemeFault> {
    match field(entries, key) {
        Some(v) => level_range_of(v),
        None => Ok(default),
    }
}

/// The range of counts under `key`, or the point zero if the key is absent.
pub open spec fn counts_or_zero(entries: Seq<(String, Value)>, key: Seq<char>) -> Result<
    (u32, u32),
    ThemeFault,
> {
    match field(entries, key) {
        Some(v) => count_range_of(v),
        None => Ok((0u32, 0u32)),
    }
}

/// The range of delays under `key`, or the point zero if the key is absent.
pub open spec fn delays_or_zero(entries: Seq<(String, Value)>, key: Seq<char>) -> Result<
    (u64, u64),
    ThemeFault,
> {
    match field(entries, key) {
        Some(v) => delay_range_of(v),
        None => Ok((0u64, 0u64)),
    }
}

/// The first fault among the fields of a sound, in the order in which they
/// are read, if there is one.
pub open spec fn sound_fault(e: Seq<(String, Value)>) -> Option<ThemeFault> {
    if required_text(e, "name"@) is Err {
        Some(required_text(e, "name"@)->Err_0)
    } else if required_text(e, "file"@) is Err {
        Some(required_text(e, "file"@)->Err_0)
    } else if required_levels(e, "volume"@) is Err {
        Some(required_levels(e, "volume"@)->Err_0)
    } else if optional_text(e, "trigger"@) is Err {
        Some(optional_text(e, "trigger"@)->Err_0)
    } else if flag_or_false(e, "enabled"@) is Err {
        Some(flag_or_false(e, "enabled"@)->Err_0)
    } else if text_or(e, "reverb"@, "none"@) is Err {
        Some(text_or(e, "reverb"@, "none"@)->Err_0)
    } else if counts_or_zero(e, "repeat_count"@) is Err {
        Some(counts_or_zero(e, "repeat_count"@)->Err_0)
    } else if delays_or_zero(e, "repeat_delay"@) is Err {
        Some(delays_or_zero(e, "repeat_delay"@)->Err_0)
    } else if counts_or_zero(e, "loop_count"@) is Err {
        Some(counts_or_zero(e, "loop_count"@)->Err_0)
    } else if delays_or_zero(e, "loop_delay"@) is Err {
        Some(delays_or_zero(e, "loop_delay"@)->Err_0)
    } else if flag_or_false(e, "loop_forever"@) is Err {
        Some(flag_or_false(e, "loop_forever"@)->Err_0)
    } else if flag_or_false(e, "pitch_enabled"@) is Err {
        Some(flag_or_false(e, "pitch_enabled"@)->Err_0)
    } else if levels_or(e, "pitch"@, (1000u32, 1000u32)) is Err {
        Some(levels_or(e, "pitch"@, (1000u32, 1000u32))->Err_0)
    } else if flag_or_false(e, "lowpass_enabled"@) is Err {
        Some(flag_or_false(e, "lowpass_enabled"@)->Err_0)
    } else if levels_or(e, "lowpass"@, (1000u32, 1000u32)) is Err {
        Some(levels_or(e, "lowpass"@, (1000u32, 1000u32))->Err_0)
    } else if flag_or_false(e, "highpass_enabled"@) is Err {
        Some(flag_or_false(e, "highpass_enabled"@)->Err_0)
    } else if levels_or(e, "highpass"@, (1000u32, 1000u32)) is Err {
        Some(levels_or(e, "highpass"@, (1000u32, 1000u32))->Err_0)
    } else if flag_or_false(e, "fade_in_enabled"@) is Err {
        Some(flag_or_false(e, "fade_in_enabled"@)->Err_0)
    } else if levels_or(e, "fade_in"@, (0u32, 0u32)) is Err {
        Some(levels_or(e, "fade_in"@, (0u32, 0u32))->Err_0)
    } else {
        None
    }
}

/// The sound that the fields `e` describe when none of them is at fault.
/// A field that is absent has its default; fields that a sound does not
/// have are passed over.
pub open spec fn sound_from(e: Seq<(String, Value)>) -> SoundView {
    SoundView {
        name: required_text(e, "name"@)->Ok_0,
        file: required_text(e, "file"@)->Ok_0,
        volume: required_levels(e, "volume"@)->Ok_0,
        trigger: optional_text(e, "trigger"@)->Ok_0,
        enabled: flag_or_false(e, "enabled"@)->Ok_0,
        reverb: text_or(e, "reverb"@, "none"@)->Ok_0,
        repeat_count: counts_or_zero(e, "repeat_count"@)->Ok_0,
        repeat_delay: delays_or_zero(e, "repeat_delay"@)->Ok_0,
        loop_count: counts_or_zero(e, "loop_count"@)->Ok_0,
        loop_delay: delays_or_zero(e, "loop_delay"@)->Ok_0,
        loop_forever: flag_or_false(e, "loop_forever"@)->Ok_0,
        pitch_enabled: flag_or_false(e, "pitch_enabled"@)->Ok_0,
        pitch: levels_or(e, "pitch"@, (1000u32, 1000u32))->Ok_0,
        lowpass_enabled: flag_or_false(e, "lowpass_enabled"@)->Ok_0,
        lowpass: levels_or(e, "lowpass"@, (1000u32, 1000u32))->Ok_0,
        highpass_enabled: flag_or_false(e, "highpass_enabled"@)->Ok_0,
        highpass: levels_or(e, "highpass"@, (1000u32, 1000u32))->Ok_0,
        fade_in_enabled: flag_or_false(e, "fade_in_enabled"@)->Ok_0,
        fade_in: levels_or(e, "fade_in"@, (0u32, 0u32))->Ok_0,
    }
}

/// The sound that `v` describes: a table of the fields of a sound.
pub open spec fn sound_of(v: Value) -> Result<SoundView, ThemeFault> {
    match v {
        Value::Table(entries) => match sound_fault(entries@) {
            Some(fault) => Err(fault),
            None => Ok(sound_from(entries@)),
        },
        _ => Err(ThemeFault::UnknownType),
    }
}

/// The sounds that `items` describe, in their order, or the fault of the
/// first of them that is at fault.
pub open spec fn sounds_of(items: Seq<Value>) -> Result<Seq<SoundView>, ThemeFault>
    decreases items.len(),
{
    if items.len() == 0 {
        Ok(Seq::empty())
    } else {
        match sounds_of(items.drop_last()) {
            Ok(sounds) => match sound_of(items.last()) {
                Ok(sound) => Ok(sounds.push(sound)),
                Err(fault) => Err(fault),
            },
            Err(fault) => Err(fault),
        }
    }
}

/// The list of sounds under the key `sounds`, which must be there.
pub open spec fn required_sounds(e: Seq<(String, Value)>) -> Result<Seq<SoundView>, ThemeFault> {
    match field(e, "sounds"@) {
        Some(Value::List(items)) => sounds_of(items@),
        Some(_) => Err(ThemeFault::UnknownType),
        None => Err(ThemeFault::MissingField),
    }
}

/// The theme that `v` describes: a table with a name, a room if any, and a
/// list of sounds.
pub open spec fn theme_of(v: Value) -> Result<ThemeView, ThemeFault> {
    match v {
        Value::Table(entries) => {
            let e = entries@;
            if required_text(e, "name"@) is Err {
                Err(required_text(e, "name"@)->Err_0)
            } else if optional_text(e, "room"@) is Err {
                Err(optional_text(e, "room"@)->Err_0)
            } else if required_sounds(e) is Err {
                Err(required_sounds(e)->Err_0)
            } else {
                Ok(
                    ThemeView {
                        name: required_text(e, "name"@)->Ok_0,
                        room: optional_text(e, "room"@)->Ok_0,
                        sounds: required_sounds(e)->Ok_0,
                    },
                )
            }
        },
        _ => Err(ThemeFault::UnknownType),
    }
}

fn read_required_text(entries: &Vec<(String, Value)>, key: &str) -> (text: Result<String, ThemeFault>)
    ensures
        match text {
            Ok(s) => required_text(entries@, key@) == Ok::<Seq<char>, ThemeFault>(s@),
            Err(fault) => required_text(entries@, key@) == Err::<Seq<char>, ThemeFault>(fault),
        },
{
    match find_field(entries, key) {
        Some(v) => read_text(v),
        None => Err(ThemeFault::MissingField),
    }
}

fn read_optional_text(entries: &Vec<(String, Value)>, key: &str) -> (text: Result<
    Option<String>,
    ThemeFault,
>)
    ensures
        match text {
            Ok(Some(s)) => optional_text(entries@, key@) == Ok::<Option<Seq<char>>, ThemeFault>(
                Some(s@),
            ),
            Ok(None) => optional_text(entries@, key@) == Ok::<Option<Seq<char>>, ThemeFault>(None),
            Err(fault) => optional_text(entries@, key@) == Err::<Option<Seq<char>>, ThemeFault>(
                fault,
            ),
        },
{
    match find_field(entries, key) {
        Some(Value::Null) => Ok(None),
        Some(v) => match read_text(v) {
            Ok(text) => Ok(Some(text)),
            Err(fault) => Err(fault),
        },
        None => Ok(None),
    }
}

fn read_text_or(entries: &Vec<(String, Value)>, key: &str, default: &str) -> (text: Result<
    String,
    ThemeFault,
>)
    ensures
        match text {
            Ok(s) => text_or(entries@, key@, default@) == Ok::<Seq<char>, ThemeFault>(s@),
            Err(fault) => text_or(entries@, key@, default@) == Err::<Seq<char>, ThemeFault>(fault),
        },
{
    match find_field(entries, key) {
        Some(v) => read_text(v),
        None => Ok(default.to_owned()),
    }
}

fn read_flag_or_false(entries: &Vec<(String, Value)>, key: &str) -> (flag: Result<bool, ThemeFault>)
    ensures
        flag == flag_or_false(entries@, key@),
{
    match find_field(entries, key) {
        Some(v) => read_flag(v),
        None => Ok(false),
    }
}

fn read_required_levels(entries: &Vec<(String, Value)>, key: &str) -> (range: Result<
    (Level, Level),
    ThemeFault,
>)
    ensures
        range == required_levels(entries@, key@),
        range matches Ok(r) ==> r.0 <= r.1,
{
    match find_field(entries, key) {
        Some(v) => read_level_range(v),
        None => Err(ThemeFault::MissingField),
    }
}

fn read_levels_or(entries: &Vec<(String, Value)>, key: &str, default: (Level, Level)) -> (range:
    Result<(Level, Level), ThemeFault>)
    requires
        default.0 <= default.1,
    ensures
        range == levels_or(entries@, key@, default),
        range matches Ok(r) ==> r.0 <= r.1,
{
    match find_field(entries, key) {
        Some(v) => read_level_range(v),
        None => Ok(default),
    }
}

fn read_counts_or_zero(entries: &Vec<(String, Value)>, key: &str) -> (range: Result<
    (u32, u32),
    ThemeFault,
>)
    ensures
        range == counts_or_zero(entries@, key@),
        range matches Ok(r) ==> r.0 <= r.1,
{
    match find_field(entries, key) {
        Some(v) => read_count_range(v),
        None => Ok(get_default_count()),
    }
}

fn read_delays_or_zero(entries: &Vec<(String, Value)>, key: &str) -> (range: Result<
    (u64, u64),
    ThemeFault,
>)
    ensures
        range == delays_or_zero(entries@, key@),
        range matches Ok(r) ==> r.0 <= r.1,
{
    match find_field(entries, key) {
        Some(v) => read_delay_range(v),
        None => Ok(get_default_delay()),
    }
}

impl Sound {
    /// Reads a sound from its description. The result is that of
    /// [`sound_of`]; a sound that was read has no inverted range.
    pub fn read(v: &Value) -> (sound: Result<Sound, ThemeFault>)
        ensures
            match sound {
                Ok(s) => sound_of(*v) == Ok::<SoundView, ThemeFault>(s@) && s@.wf(),
                Err(fault) => sound_of(*v) == Err::<SoundView, ThemeFault>(fault),
            },
    {
        let e = match v {
            Value::Table(entries) => entries,
            _ => {
                return Err(ThemeFault::UnknownType);
            },
        };
        let name = match read_required_text(e, "name") {
            Ok(x) => x,
            Err(fault) => {
                return Err(fault);
            },
        };
        let file = match read_required_text(e, "file") {
            Ok(x) => x,
            Err(fault) => {
                return Err(fault);
            },
        };
        let volume = match read_required_levels(e, "volume") {
            Ok(x) => x,
            Err(fault) => {
                return Err(fault);
            },
        };
        let trigger = match read_optional_text(e, "trigger") {
            Ok(x) => x,
            Err(fault) => {
                return Err(fault);
            },
        };
        let enabled = match read_flag_or_false(e, "enabled") {
            Ok(x) => x,
            Err(fault) => {
                return Err(fault);
            },
        };
        let reverb = match read_text_or(e, "reverb", "none") {
            Ok(x) => x,
            Err(fault) => {
                return Err(fault);
            },
        };
        let repeat_count = match read_counts_or_zero(e, "repeat_count") {
            Ok(x) => x,
            Err(fault) => {
                return Err(fault);
            },
        };
        let repeat_delay = match read_delays_or_zero(e, "repeat_delay") {
            Ok(x) => x,
            Err(fault) => {
                return Err(fault);
            },
        };
        let loop_count = match read_counts_or_zero(e, "loop_count") {
            Ok(x) => x,
            Err(fault) => {
                return Err(fault);
            },
        };
        let loop_delay = match read_delays_or_zero(e, "loop_delay") {
            Ok(x) => x,
            Err(fault) => {
                return Err(fault);
            },
        };
        let loop_forever = match read_flag_or_false(e, "loop_forever") {
            Ok(x) => x,
            Err(fault) => {
                return Err(fault);
            },
        };
        let pitch_enabled = match read_flag_or_false(e, "pitch_enabled") {
            Ok(x) => x,
            Err(fault) => {
                return Err(fault);
            },
        };
        let pitch = match read_levels_or(e, "pitch", get_default_pitch()) {
            Ok(x) => x,
            Err(fault) => {
                return Err(fault);
            },
        };
        let lowpass_enabled = match read_flag_or_false(e, "lowpass_enabled") {
            Ok(x) => x,
            Err(fault) => {
                return Err(fault);
            },
        };
        let lowpass = match read_levels_or(e, "lowpass", get_default_pitch()) {
            Ok(x) => x,
            Err(fault) => {
                return Err(fault);
            },
        };
        let highpass_enabled = match read_flag_or_false(e, "highpass_enabled") {
            Ok(x) => x,
            Err(fault) => {
                return Err(fault);
            },
        };
        let highpass = match read_levels_or(e, "highpass", get_default_pitch()) {
            Ok(x) => x,
            Err(fault) => {
                return Err(fault);
            },
        };
        let fade_in_enabled = match read_flag_or_false(e, "fade_in_enabled") {
            Ok(x) => x,
            Err(fault) => {
                return Err(fault);
            },
        };
        let fade_in = match read_levels_or(e, "fade_in", get_default_fade_in()) {
            Ok(x) => x,
            Err(fault) => {
                return Err(fault);
            },
        };
        Ok(
            Sound {
                name,
                file,
                volume,
                trigger,
                enabled,
                reverb,
                repeat_count,
                repeat_delay,
                loop_count,
                loop_delay,
                loop_forever,
                pitch_enabled,
                pitch,
                lowpass_enabled,
                lowpass,
                highpass_enabled,
                highpass,
                fade_in_enabled,
                fade_in,
            },
        )
    }
}

impl Theme {
    /// Reads a theme from its description. The result is that of
    /// [`theme_of`]; a theme that was read is well formed.
    pub fn read(v: &Value) -> (theme: Result<Theme, ThemeFault>)
        ensures
            match theme {
                Ok(t) => theme_of(*v) == Ok::<ThemeView, ThemeFault>(t@) && t@.wf(),
                Err(fault) => theme_of(*v) == Err::<ThemeView, ThemeFault>(fault),
            },
    {
        let e = match v {
            Value::Table(entries) => entries,
            _ => {
                return Err(ThemeFault::UnknownType);
            },
        };
        let name = match read_required_text(e, "name") {
            Ok(x) => x,
            Err(fault) => {
                return Err(fault);
            },
        };
        let room = match read_optional_text(e, "room") {
            Ok(x) => x,
            Err(fault) => {
                return Err(fault);
            },
        };
        let items = match find_field(e, "sounds") {
            Some(Value::List(items)) => items,
            Some(_) => {
                return Err(ThemeFault::UnknownType);
            },
            None => {
                return Err(ThemeFault::MissingField);
            },
        };
        let mut sounds: Vec<Sound> = Vec::new();
        let mut i: usize = 0;
        assert(items@.take(0) =~= Seq::empty());
        assert(Seq::new(sounds@.len(), |k: int| sounds@[k]@) =~= Seq::<SoundView>::empty());
        while i < items.len()
            invariant
                i <= items.len(),
                sounds@.len() == i,
                sounds_of(items@.take(i as int)) == Ok::<Seq<SoundView>, ThemeFault>(
                    Seq::new(sounds@.len(), |k: int| sounds@[k]@),
                ),
                forall|k: int| 0 <= k < i ==> (#[trigger] sounds@[k])@.wf(),
                forall|fault: ThemeFault|
                    sounds_of(items@) == Err::<Seq<SoundView>, ThemeFault>(fault) ==> theme_of(*v)
                        == Err::<ThemeView, ThemeFault>(fault),
            decreases items.len() - i,
        {
            proof {
                assert(items@.take(i + 1).drop_last() =~= items@.take(i as int));
                assert(items@.take(i + 1).last() == items@[i as int]);
            }
            let ghost before = Seq::new(sounds@.len(), |k: int| sounds@[k]@);
            match Sound::read(&items[i]) {
                Ok(sound) => {
                    sounds.push(sound);
                    assert(Seq::new(sounds@.len(), |k: int| sounds@[k]@) =~= before.push(sound@));
                },
                Err(fault) => {
                    proof {
                        assert(sounds_of(items@.take(i + 1)) == Err::<Seq<SoundView>, ThemeFault>(
                            fault,
                        ));
                        lemma_sounds_fault(items@, i as int + 1);
                    }
                    return Err(fault);
                },
            }
            i += 1;
        }
        assert(items@.take(items@.len() as int) =~= items@);
        Ok(Theme { name, room, sounds })
    }

    /// Reads a theme from its description, as [`Theme::read`] does, and
    /// puts the reason into words where the description is at fault.
    pub fn parse(v: &Value) -> (theme: Result<Theme, ThemeParseError>)
        ensures
            match theme {
                Ok(t) => theme_of(*v) == Ok::<ThemeView, ThemeFault>(t@) && t@.wf(),
                Err(e) => theme_of(*v) matches Err(fault) && e.message@ == fault_text(fault),
            },
    {
        match Theme::read(v) {
            Ok(theme) => Ok(theme),
            Err(fault) => Err(ThemeParseError::new(fault)),
        }
    }
}

/// A fault among the first `n` descriptions is the fault of them all.
pub proof fn lemma_sounds_fault(items: Seq<Value>, n: int)
    requires
        0 <= n <= items.len(),
        sounds_of(items.take(n)) is Err,
    ensures
        sounds_of(items) == sounds_of(items.take(n)),
    decreases items.len() - n,
{
    if n < items.len() {
        assert(items.take(n + 1).drop_last() =~= items.take(n));
        lemma_sounds_fault(items, n + 1);
    } else {
        assert(items.take(n) =~= items);
    }
}

} // verus!
