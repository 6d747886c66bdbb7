//! Identification values: PCI match rules, identification tables, and the
//! identifiers handed to freshly probed devices.

use vstd::prelude::*;
use vstd::string::StringExecFns;

verus! {

/// The wildcard field value of a PCI match rule.
pub const PCI_ANY_ID: u16 = 0xFFFF;

/// An immutable PCI match rule: vendor and device identification a driver
/// is willing to accept.  Equality is by field comparison.
#[derive(Clone, Copy, Debug, PartialEq, Eq, Structural)]
pub struct PciDeviceID {
    /// The vendor identifier the rule matches.
    pub vendor: u16,
    /// The device identifier the rule matches.
    pub device_id: u16,
}

impl PciDeviceID {
    /// A rule with the given fields.
    pub fn new(vendor: u16, device_id: u16) -> (r: PciDeviceID)
        ensures
            r == (PciDeviceID { vendor, device_id }),
    {
        PciDeviceID { vendor, device_id }
    }

    /// The placeholder rule: both fields are the wildcard value.
    pub open spec fn spec_dummpy() -> PciDeviceID {
        PciDeviceID { vendor: PCI_ANY_ID, device_id: PCI_ANY_ID }
    }

    /// A placeholder rule for objects whose identification carries no
    /// information of its own.
    pub fn dummpy() -> (r: PciDeviceID)
        ensures
            r == PciDeviceID::spec_dummpy(),
    {
        PciDeviceID { vendor: PCI_ANY_ID, device_id: PCI_ANY_ID }
    }
}

/// The static identification of a device or driver: a name and an optional
/// device number.
#[derive(Debug)]
pub struct IdTable {
    name: String,
    id: Option<u32>,
}

impl IdTable {
    /// The name part of the identification.
    pub closed spec fn spec_name(self) -> Seq<char> {
        self.name@
    }

    /// The optional device number part of the identification.
    pub closed spec fn spec_id(self) -> Option<u32> {
        self.id
    }

    /// An identification made of the given parts.
    pub fn new(name: String, id: Option<u32>) -> (t: IdTable)
        ensures
            t.spec_name() == name@,
            t.spec_id() == id,
    {
        IdTable { name, id }
    }

    /// The name part, as text.
    pub fn name(&self) -> (r: &str)
        ensures
            r@ == self.spec_name(),
    {
        self.name.as_str()
    }

    /// The device number part.
    pub fn id(&self) -> (r: Option<u32>)
        ensures
            r == self.spec_id(),
    {
        self.id
    }
}

/// The identifier handed to a device when probing discovers it: an optional
/// name and an optional id text, at least one of which is present.
#[derive(Debug)]
pub struct DeviceId {
    data: Option<String>,
    id: Option<String>,
}

impl DeviceId {
    /// The name part of the identifier.
    pub closed spec fn spec_data(self) -> Option<Seq<char>> {
        match self.data {
            Some(s) => Some(s@),
            None => None,
        }
    }

    /// The id text of the identifier.
    pub closed spec fn spec_id(self) -> Option<Seq<char>> {
        match self.id {
            Some(s) => Some(s@),
            None => None,
        }
    }

    /// Builds an identifier from its parts; an identifier with neither part
    /// carries no information, so none is built.
    pub fn new(data: Option<String>, id: Option<String>) -> (r: Option<DeviceId>)
        ensures
            (data is None && id is None) ==> r is None,
            (data is Some || id is Some) ==> (r matches Some(d)
                && d.spec_data() == (match data {
                    Some(s) => Some(s@),
                    None => None::<Seq<char>>,
                })
                && d.spec_id() == (match id {
                    Some(s) => Some(s@),
                    None => None::<Seq<char>>,
                })),
    {
        if data.is_none() && id.is_none() {
            None
        } else {
            Some(DeviceId { data, id })
        }
    }

    /// The name part, cloned out.
    pub fn data(&self) -> (r: Option<String>)
        ensures
            r matches Some(s) ==> self.spec_data() == Some(s@),
            r is None ==> self.spec_data() is None,
    {
        match &self.data {
            Some(s) => Some(s.clone()),
            None => None,
        }
    }

    /// The id text, cloned out.
    pub fn id(&self) -> (r: Option<String>)
        ensures
            r matches Some(s) ==> self.spec_id() == Some(s@),
            r is None ==> self.spec_id() is None,
    {
        match &self.id {
            Some(s) => Some(s.clone()),
            None => None,
        }
    }
}

/// The character standing for one decimal digit.
pub open spec fn spec_dec_digit(d: int) -> char {
    if d == 0 {
        '0'
    } else if d == 1 {
        '1'
    } else if d == 2 {
        '2'
    } else if d == 3 {
        '3'
    } else if d == 4 {
        '4'
    } else if d == 5 {
        '5'
    } else if d == 6 {
        '6'
    } else if d == 7 {
        '7'
    } else if d == 8 {
        '8'
    } else {
        '9'
    }
}

/// The decimal rendering of a non-negative number, without leading zeroes
/// (a single zero for zero itself).
pub open spec fn spec_dec_string(n: int) -> Seq<char>
    decreases n,
{
    if n < 10 {
        seq![spec_dec_digit(n)]
    } else {
        spec_dec_string(n / 10).push(spec_dec_digit(n % 10))
    }
}

/// Appends the character of one decimal digit to the text.
fn append_dec_digit(s: &mut String, d: u16)
    requires
        d < 10,
    ensures
        final(s)@ == old(s)@.push(spec_dec_digit(d as int)),
{
    if d == 0 {
        proof {
            reveal_strlit("0");
        }
        s.append("0");
        proof {
            assert(final(s)@ =~= old(s)@.push('0'));
        }
    } else if d == 1 {
        proof {
            reveal_strlit("1");
        }
        s.append("1");
        proof {
            assert(final(s)@ =~= old(s)@.push('1'));
        }
    } else if d == 2 {
        proof {
            reveal_strlit("2");
        }
        s.append("2");
        proof {
            assert(final(s)@ =~= old(s)@.push('2'));
        }
    } else if d == 3 {
        proof {
            reveal_strlit("3");
        }
        s.append("3");
        proof {
            assert(final(s)@ =~= old(s)@.push('3'));
        }
    } else if d == 4 {
        proof {
            reveal_strlit("4");
        }
        s.append("4");
        proof {
            assert(final(s)@ =~= old(s)@.push('4'));
        }
    } else if d == 5 {
        proof {
            reveal_strlit("5");
        }
        s.append("5");
        proof {
            assert(final(s)@ =~= old(s)@.push('5'));
        }
    } else if d == 6 {
        proof {
            reveal_strlit("6");
        }
        s.append("6");
        proof {
            assert(final(s)@ =~= old(s)@.push('6'));
        }
    } else if d == 7 {
        proof {
            reveal_strlit("7");
        }
        s.append("7");
        proof {
            assert(final(s)@ =~= old(s)@.push('7'));
        }
    } else if d == 8 {
        proof {
            reveal_strlit("8");
        }
        s.append("8");
        proof {
            assert(final(s)@ =~= old(s)@.push('8'));
        }
    } else {
        proof {
            reveal_strlit("9");
        }
        s.append("9");
        proof {
            assert(final(s)@ =~= old(s)@.push('9'));
        }
    }
}

/// Renders a number as decimal text.
pub fn u16_to_dec_string(x: u16) -> (s: String)
    ensures
        s@ == spec_dec_string(x as int),
{
    let mut rev: Vec<u16> = Vec::new();
    let mut n: u16 = x;
    loop
        invariant_except_break
            spec_dec_string(x as int) == spec_dec_string(n as int)
                + rev@.reverse().map_values(|d: u16| spec_dec_digit(d as int)),
        invariant
            n <= x,
            forall|j: int| 0 <= j < rev@.len() ==> #[trigger] rev@[j] < 10,
        ensures
            forall|j: int| 0 <= j < rev@.len() ==> #[trigger] rev@[j] < 10,
            spec_dec_string(x as int)
                == rev@.reverse().map_values(|d: u16| spec_dec_digit(d as int)),
        decreases n,
    {
        let ghost prev = rev@;
        let d = n % 10;
        rev.push(d);
        proof {
            assert(rev@.reverse().map_values(|t: u16| spec_dec_digit(t as int))
                =~= seq![spec_dec_digit(d as int)]
                    + prev.reverse().map_values(|t: u16| spec_dec_digit(t as int)));
        }
        if n < 10 {
            break;
        }
        n = n / 10;
    }
    let mut s = String::new();
    let total = rev.len();
    let mut j: usize = 0;
    while j < total
        invariant
            total == rev@.len(),
            j <= total,
            forall|k: int| 0 <= k < rev@.len() ==> #[trigger] rev@[k] < 10,
            s@ == rev@.reverse().map_values(|d: u16| spec_dec_digit(d as int))
                .subrange(0, j as int),
        decreases total - j,
    {
        append_dec_digit(&mut s, rev[total - 1 - j]);
        proof {
            assert(rev@.reverse()[j as int] == rev@[total - 1 - j]);
            assert(s@ =~= rev@.reverse().map_values(|d: u16| spec_dec_digit(d as int))
                .subrange(0, j + 1 as int));
        }
        j = j + 1;
    }
    proof {
        let full = rev@.reverse().map_values(|d: u16| spec_dec_digit(d as int));
        assert(full.subrange(0, full.len() as int) == full);
    }
    s
}

} // verus!
