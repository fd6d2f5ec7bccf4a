//! The kinds of filter an equaliser band can apply.
use vstd::prelude::*;
use crate::text::{other_io_error, same_text, UnknownName};

verus! {

/// The response shape of a single equaliser band.
#[derive(Clone, Copy, Debug, PartialEq, Eq, Structural)]
pub enum FilterType {
    LowPass,
    HighPass,
    BandPass,
    Notch,
    LowShelf,
    HighShelf,
    Peak,
}

/// Every filter kind, in the order the editor offers them.
pub open spec fn all_filter_types() -> Seq<FilterType> {
    seq![FilterType::LowPass, FilterType::HighPass, FilterType::BandPass, FilterType::Notch, FilterType::LowShelf, FilterType::HighShelf, FilterType::Peak]
}

impl FilterType {
    /// How the filter kind is written.
    pub open spec fn name(self) -> Seq<char> {
        match self {
            FilterType::LowPass => "LowPass"@,
            FilterType::HighPass => "HighPass"@,
            FilterType::BandPass => "BandPass"@,
            FilterType::Notch => "Notch"@,
            FilterType::LowShelf => "LowShelf"@,
            FilterType::HighShelf => "HighShelf"@,
            FilterType::Peak => "Peak"@,
        }
    }

    /// Every filter kind.
    pub fn all() -> (r: Vec<FilterType>)
        ensures
            r@ == all_filter_types(),
    {
        vec![FilterType::LowPass, FilterType::HighPass, FilterType::BandPass, FilterType::Notch, FilterType::LowShelf, FilterType::HighShelf, FilterType::Peak]
    }

    /// The written form of the filter kind.
    pub fn to_string(&self) -> (r: String)
        ensures
            r@ == self.name(),
    {
        let s: &str = match self {
            FilterType::LowPass => "LowPass",
            FilterType::HighPass => "HighPass",
            FilterType::BandPass => "BandPass",
            FilterType::Notch => "Notch",
            FilterType::LowShelf => "LowShelf",
            FilterType::HighShelf => "HighShelf",
            FilterType::Peak => "Peak",
        };
        s.to_owned()
    }

    /// Reads a filter kind from its written form; any other text is refused.
    pub fn parse(s: &str) -> (r: Result<FilterType, UnknownName>)
        ensures
            r matches Ok(v) ==> v.name() == s@,
            r is Err <==> (forall|v: FilterType| v.name() != s@),
            forall|v: FilterType| v.name() == s@ ==> r == Ok::<FilterType, UnknownName>(v),
    {
        proof {
            assert forall|a: FilterType, b: FilterType| a.name() == b.name() implies a == b by {
                lemma_filter_type_names_distinct(a, b);
            }
        }
        if same_text(s, "LowPass") {
            assert(FilterType::LowPass.name() == s@);
            return Ok(FilterType::LowPass);
        }
        if same_text(s, "HighPass") {
            assert(FilterType::HighPass.name() == s@);
            return Ok(FilterType::HighPass);
        }
        if same_text(s, "BandPass") {
            assert(FilterType::BandPass.name() == s@);
            return Ok(FilterType::BandPass);
        }
        if same_text(s, "Notch") {
            assert(FilterType::Notch.name() == s@);
            return Ok(FilterType::Notch);
        }
        if same_text(s, "LowShelf") {
            assert(FilterType::LowShelf.name() == s@);
            return Ok(FilterType::LowShelf);
        }
        if same_text(s, "HighShelf") {
            assert(FilterType::HighShelf.name() == s@);
            return Ok(FilterType::HighShelf);
        }
        if same_text(s, "Peak") {
            assert(FilterType::Peak.name() == s@);
            return Ok(FilterType::Peak);
        }
        Err(UnknownName)
    }
}

impl std::str::FromStr for FilterType {
    type Err = std::io::Error;

    /// Reads the written name back; other text is refused with an I/O error
    /// of kind `Other` saying "Incorrect from_str value".
    fn from_str(s: &str) -> (r: Result<FilterType, std::io::Error>)
        ensures
            r matches Ok(v) ==> v.name() == s@,
            r is Err <==> (forall|v: FilterType| v.name() != s@),
            forall|v: FilterType| v.name() == s@ ==> r == Ok::<FilterType, std::io::Error>(v),
    {
        match FilterType::parse(s) {
            Ok(v) => Ok(v),
            Err(_) => Err(other_io_error("Incorrect from_str value")),
        }
    }
}

/// Two different filter kinds are written differently, so reading back the
/// written form of a filter kind gives that kind.
pub proof fn lemma_filter_type_names_distinct(a: FilterType, b: FilterType)
    ensures
        a.name() == b.name() ==> a == b,
{
    reveal_strlit("LowPass");
    reveal_strlit("HighPass");
    reveal_strlit("BandPass");
    reveal_strlit("Notch");
    reveal_strlit("LowShelf");
    reveal_strlit("HighShelf");
    reveal_strlit("Peak");
    if a.name() == b.name() {
        assert(a.name().len() == b.name().len());
        assert(a.name()[0] == b.name()[0]);
        assert(a.name()[4] == b.name()[4]);
    }
}

/// Each filter kind is written as its variant's name: the kinds of
/// [`all_filter_types`], in order, are written `LowPass`, `HighPass`,
/// `BandPass`, `Notch`, `LowShelf`, `HighShelf` and `Peak`, so reading one
/// of these names back gives the filter of that name.
pub proof fn lemma_filter_types_named_by_variant()
    ensures
        all_filter_types().map_values(|f: FilterType| f.name()) =~= seq![
            "LowPass"@,
            "HighPass"@,
            "BandPass"@,
            "Notch"@,
            "LowShelf"@,
            "HighShelf"@,
            "Peak"@,
        ],
{
}

/// Makes sure the filter keeps a state for `channel`: missing states, up to
/// that channel, are added as copies of `zero`; existing ones are kept.
pub fn ensure_channel_state<T: Clone>(states: &mut Vec<T>, channel: usize, zero: T)
    requires
        channel < usize::MAX,
    ensures
        final(states)@.len() == (if channel < old(states)@.len() { old(states)@.len() as int } else { channel + 1 }),
        forall|i: int| 0 <= i < old(states)@.len() ==> #[trigger] final(states)@[i] == old(states)@[i],
        forall|i: int|
            old(states)@.len() <= i < final(states)@.len() ==> cloned::<T>(zero, #[trigger] final(states)@[i]),
{
    if channel >= states.len() {
        let ghost before = states@;
        states.resize(channel + 1, zero);
        assert forall|i: int| 0 <= i < before.len() implies #[trigger] states@[i] == before[i] by {
            assert(states@.subrange(0, before.len() as int)[i] == states@[i]);
        }
    }
}

} // verus!
