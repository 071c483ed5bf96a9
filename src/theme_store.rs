//! The two appearance flags as the configuration store holds them.
use vstd::prelude::*;

verus! {

/// Path of the configuration key that holds both appearance flags.
pub const PERSONALIZE_KEY_PATH: &'static str = "SOFTWARE\\Microsoft\\Windows\\CurrentVersion\\Themes\\Personalize";

/// Name of the flag that applications follow.
pub const APPS_FLAG_NAME: &'static str = "AppsUseLightTheme";

/// Name of the flag that the system chrome follows.
pub const SYSTEM_FLAG_NAME: &'static str = "SystemUsesLightTheme";

/// What reading one appearance flag from the configuration store produced.
#[derive(Clone, Copy, Debug, PartialEq, Eq, Structural)]
pub enum FlagValue {
    /// The key could not be opened or the value is not there.
    Absent,
    /// A 32-bit integer value.
    Dword(u32),
    /// A value of another kind than a 32-bit integer.
    Malformed,
}

/// The integer stored for a mode: `1` for light, `0` for dark.
pub open spec fn light_encoding(light: bool) -> u32 {
    if light {
        1
    } else {
        0
    }
}

/// A flag reads as light exactly when it holds the integer `1`.
pub open spec fn flag_means_light(v: FlagValue) -> bool {
    v == FlagValue::Dword(1)
}

/// The integer to store for the given mode.
pub fn flag_encoding(light: bool) -> (r: u32)
    ensures
        r == light_encoding(light),
{
    if light {
        1
    } else {
        0
    }
}

/// Interprets one flag; anything but the integer `1` counts as dark.
pub fn is_light_flag(v: FlagValue) -> (r: bool)
    ensures
        r == flag_means_light(v),
        v !is Dword ==> !r,
{
    match v {
        FlagValue::Dword(n) => n == 1,
        _ => false,
    }
}

/// The application flag and the system flag, as last read or written.
#[derive(Clone, Copy, Debug, PartialEq, Eq, Structural)]
pub struct ThemeFlags {
    pub apps: FlagValue,
    pub system: FlagValue,
}

impl ThemeFlags {
    /// The light mode is read from the application flag alone.
    pub open spec fn is_light_spec(self) -> bool {
        flag_means_light(self.apps)
    }

    /// Both flags as a write of the given mode leaves them.
    pub open spec fn stored(light: bool) -> ThemeFlags {
        ThemeFlags {
            apps: FlagValue::Dword(light_encoding(light)),
            system: FlagValue::Dword(light_encoding(light)),
        }
    }

    /// Both flags hold the same value.
    pub open spec fn agree(self) -> bool {
        self.apps == self.system
    }

    /// Flags that could not be read at all.
    pub fn absent() -> (r: Self)
        ensures
            r.apps == FlagValue::Absent,
            r.system == FlagValue::Absent,
    {
        ThemeFlags { apps: FlagValue::Absent, system: FlagValue::Absent }
    }

    /// Flags as a write of the given mode leaves them.
    pub fn from_light(light: bool) -> (r: Self)
        ensures
            r == Self::stored(light),
    {
        let v = flag_encoding(light);
        ThemeFlags { apps: FlagValue::Dword(v), system: FlagValue::Dword(v) }
    }

    /// Whether light mode is active. A missing or malformed application
    /// flag reads as dark; reading changes nothing, so two reads with no
    /// write between them agree.
    pub fn read_is_light(&self) -> (r: bool)
        ensures
            r == self.is_light_spec(),
            self.apps is Absent ==> !r,
            self.apps is Malformed ==> !r,
    {
        is_light_flag(self.apps)
    }

    /// Sets both flags to the encoding of the given mode.
    pub fn write_is_light(&mut self, light: bool)
        ensures
            *final(self) == Self::stored(light),
            final(self).agree(),
            final(self).is_light_spec() == light,
    {
        let v = flag_encoding(light);
        self.apps = FlagValue::Dword(v);
        self.system = FlagValue::Dword(v);
    }

    /// Whether both flags hold the same value.
    pub fn flags_agree(&self) -> (r: bool)
        ensures
            r == self.agree(),
    {
        self.apps == self.system
    }
}

/// No write sets the two flags to different values.
pub proof fn lemma_write_keeps_flags_equal(light: bool)
    ensures
        ThemeFlags::stored(light).agree(),
        ThemeFlags::stored(light).apps == FlagValue::Dword(light_encoding(light)),
{
}

} // verus!
