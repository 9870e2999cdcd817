//! Decision logic behind the Mii Selector applet interface.
//!
//! The applet itself (window, input, the device's Mii store) is an external
//! collaborator with no state machine of its own; what this module holds is
//! the pure logic around it: mapping a Mii index choice onto the applet's
//! slot encoding, classifying a returned selection as a guest or user Mii
//! (with the guest name delivered in reversed code-unit order), and turning
//! the applet's return flags into a launch outcome.

use vstd::prelude::*;

verus! {

/// Index of a Mii used to configure some parameters of the Mii Selector.
#[derive(Debug, Clone, Copy, Eq, PartialEq, Structural)]
pub enum Index {
    /// A specific Mii index.
    Index(u32),
    /// All Miis.
    All,
}

/// The type of a selected Mii.
#[derive(Debug, Clone, Eq, PartialEq)]
pub enum MiiType {
    /// A guest Mii, one of the console's built-in ones.
    Guest {
        /// Guest Mii slot index.
        index: u32,
        /// Guest Mii name.
        name: String,
    },
    /// A user-made Mii.
    User,
}

/// Error of an unsuccessful selector launch.
#[derive(Copy, Clone, Debug, Eq, PartialEq, Structural)]
pub enum LaunchError {
    /// The selected Mii's data is corrupt in some way.
    InvalidChecksum,
    /// Either the user cancelled the selection, or no valid Mii was
    /// available to select.
    NoMiiSelected,
}

/// How many guest Mii slots the selector manages; doubles as the "all
/// guests" slot argument.
pub const GUEST_MII_SLOTS: u32 = 6;

/// How many user Mii slots the selector manages; doubles as the "all users"
/// slot argument.
pub const USER_MII_SLOTS: u32 = 100;

/// The guest Mii index returned when the selection was not a guest Mii.
pub const NO_GUEST_MII: u32 = 0xFFFF_FFFF;

impl LaunchError {
    /// A human-readable description of the error.
    pub fn message(&self) -> (r: &'static str)
        ensures
            self is InvalidChecksum ==> r@ == "selected mii has invalid checksum"@,
            self is NoMiiSelected ==> r@ == "no mii was selected"@,
    {
        match self {
            LaunchError::InvalidChecksum => "selected mii has invalid checksum",
            LaunchError::NoMiiSelected => "no mii was selected",
        }
    }
}

impl From<u32> for Index {
    /// A bare number selects that specific Mii index.
    fn from(v: u32) -> (r: Self) {
        Index::Index(v)
    }
}

impl vstd::std_specs::convert::FromSpecImpl<u32> for Index {
    open spec fn obeys_from_spec() -> bool {
        true
    }

    open spec fn from_spec(v: u32) -> Index {
        Index::Index(v)
    }
}

/// The slot argument that configures a guest-Mii whitelist or blacklist
/// entry: a specific index stands for itself, `All` for every guest slot.
pub fn guest_mii_slot(mii_index: Index) -> (r: u32)
    ensures
        mii_index matches Index::Index(i) ==> r == i,
        mii_index is All ==> r == GUEST_MII_SLOTS,
{
    match mii_index {
        Index::Index(i) => i,
        Index::All => GUEST_MII_SLOTS,
    }
}

/// The slot argument that configures a user-Mii whitelist or blacklist
/// entry: a specific index stands for itself, `All` for every user slot.
pub fn user_mii_slot(mii_index: Index) -> (r: u32)
    ensures
        mii_index matches Index::Index(i) ==> r == i,
        mii_index is All ==> r == USER_MII_SLOTS,
{
    match mii_index {
        Index::Index(i) => i,
        Index::All => USER_MII_SLOTS,
    }
}

/// Whether a sequence of UTF-16 code units is valid UTF-16: every surrogate
/// is part of a high-low pair, nothing is unpaired.
pub open spec fn utf16_valid(units: Seq<u16>) -> bool
    decreases units.len(),
{
    if units.len() == 0 {
        true
    } else if !(0xD800 <= units[0] <= 0xDFFF) {
        utf16_valid(units.skip(1))
    } else if 0xD800 <= units[0] <= 0xDBFF && units.len() >= 2 && 0xDC00 <= units[1] <= 0xDFFF {
        utf16_valid(units.skip(2))
    } else {
        false
    }
}

/// The text that a sequence of UTF-16 code units decodes to, when it is
/// valid UTF-16.
pub uninterp spec fn utf16_text_of(units: Seq<u16>) -> Seq<char>;

/// Relies on String::from_utf16: decoding is a function of the code units
/// alone, succeeds exactly on valid UTF-16 (no unpaired surrogate), and an
/// empty input decodes to the empty string.
#[verifier::external_body]
fn utf16_to_string(units: &Vec<u16>) -> (r: Option<String>)
    ensures
        r is Some <==> utf16_valid(units@),
        r is Some ==> r.unwrap()@ == utf16_text_of(units@),
        units@.len() == 0 ==> r is Some && r.unwrap()@.len() == 0,
{
    String::from_utf16(units.as_slice()).ok()
}

/// Classify a selection returned by the applet. A guest Mii comes back with
/// its slot index and its name as UTF-16 code units in reversed order; the
/// sentinel index [`NO_GUEST_MII`] means a user-made Mii was selected. The
/// result is `None` exactly when a guest name is not valid UTF-16.
pub fn selected_mii_type(guest_mii_index: u32, name_units: &Vec<u16>) -> (r: Option<MiiType>)
    ensures
        guest_mii_index == NO_GUEST_MII ==> r == Some(MiiType::User),
        guest_mii_index != NO_GUEST_MII ==> match r {
            Some(MiiType::Guest { index, name }) => index == guest_mii_index && name@
                == utf16_text_of(name_units@.reverse()),
            Some(MiiType::User) => false,
            None => true,
        },
        r is None <==> (guest_mii_index != NO_GUEST_MII && !utf16_valid(name_units@.reverse())),
{
    if guest_mii_index == NO_GUEST_MII {
        return Some(MiiType::User);
    }
    let mut rev: Vec<u16> = Vec::new();
    let mut i: usize = name_units.len();
    while i > 0
        invariant
            i <= name_units@.len(),
            rev@.len() == name_units@.len() - i,
            forall|j: int|
                0 <= j < rev@.len() ==> rev@[j] == name_units@[name_units@.len() - 1 - j],
        decreases i,
    {
        i -= 1;
        rev.push(name_units[i]);
    }
    proof {
        assert(rev@ =~= name_units@.reverse());
    }
    match utf16_to_string(&rev) {
        Some(name) => Some(MiiType::Guest { index: guest_mii_index, name }),
        None => None,
    }
}

/// Turn the applet's return flags into a launch outcome: no selection beats
/// a corrupt one, and only a selection with a valid checksum succeeds.
pub fn launch_outcome(no_mii_selected: bool, checksum_valid: bool) -> (r: Result<(), LaunchError>)
    ensures
        no_mii_selected ==> r == Err::<(), LaunchError>(LaunchError::NoMiiSelected),
        !no_mii_selected && !checksum_valid ==> r == Err::<(), LaunchError>(
            LaunchError::InvalidChecksum,
        ),
        !no_mii_selected && checksum_valid ==> r.is_ok(),
{
    if no_mii_selected {
        Err(LaunchError::NoMiiSelected)
    } else if checksum_valid {
        Ok(())
    } else {
        Err(LaunchError::InvalidChecksum)
    }
}

} // verus!
