use vstd::prelude::*;

use crate::marshal::c_bytes;
use crate::marshal::copy_bytes;
use crate::marshal::make_c_str;
use crate::ports::kind_bits;
use crate::ports::port_kind_bits;
use crate::ports::PortKind;

verus! {

/// Capability bit: the plugin may be run in a realtime context.
pub const PROPERTY_REALTIME: i32 = 0x1;
/// Capability bit: in-place processing (input buffer == output buffer) is broken.
pub const PROPERTY_INPLACE_BROKEN: i32 = 0x2;
/// Capability bit: the plugin is capable of hard-realtime deadlines.
pub const PROPERTY_HARD_RT_CAPABLE: i32 = 0x4;

/// Range-hint bit: the port value is bounded below.
pub const HINT_BOUNDED_BELOW: i32 = 0x1;
/// Range-hint bit: the port value is bounded above.
pub const HINT_BOUNDED_ABOVE: i32 = 0x2;
/// Range-hint bit: the port is a toggle.
pub const HINT_TOGGLED: i32 = 0x4;
/// Range-hint bit: the bounds are relative to the sample rate.
pub const HINT_SAMPLE_RATE: i32 = 0x8;
/// Range-hint bit: the port value is best shown on a logarithmic scale.
pub const HINT_LOGARITHMIC: i32 = 0x10;
/// Range-hint bit: the port value is an integer.
pub const HINT_INTEGER: i32 = 0x20;
/// Default-value marker: the lower bound.
pub const HINT_DEFAULT_MINIMUM: i32 = 0x40;
/// Default-value marker: a value low in the range.
pub const HINT_DEFAULT_LOW: i32 = 0x80;
/// Default-value marker: the middle of the range.
pub const HINT_DEFAULT_MIDDLE: i32 = 0xC0;
/// Default-value marker: a value high in the range.
pub const HINT_DEFAULT_HIGH: i32 = 0x100;
/// Default-value marker: the upper bound.
pub const HINT_DEFAULT_MAXIMUM: i32 = 0x140;
/// Default-value marker: zero.
pub const HINT_DEFAULT_0: i32 = 0x200;
/// Default-value marker: one.
pub const HINT_DEFAULT_1: i32 = 0x240;
/// Default-value marker: one hundred.
pub const HINT_DEFAULT_100: i32 = 0x280;
/// Default-value marker: 440 (concert pitch A).
pub const HINT_DEFAULT_440: i32 = 0x2C0;

/// One declared port of a plugin description. Bound values are carried as
/// the raw bit pattern of the host interface's 32-bit float (an absent
/// bound marshals to the all-zero pattern, which is that float's zero).
pub struct Port {
    /// Direction and kind of the port.
    pub kind: PortKind,
    /// Port name as raw bytes, without a terminator.
    pub name: Vec<u8>,
    /// Extra range-hint bits chosen by the plugin author, if any.
    pub hint: Option<i32>,
    /// Default-value marker bits, if a default was declared.
    pub default: Option<i32>,
    /// Bit pattern of the lower bound, if one was declared.
    pub lower_bound: Option<u32>,
    /// Bit pattern of the upper bound, if one was declared.
    pub upper_bound: Option<u32>,
}

/// Mathematical value of a declared port.
#[verifier::ext_equal]
pub ghost struct PortV {
    pub kind: PortKind,
    pub name: Seq<u8>,
    pub hint: Option<i32>,
    pub default: Option<i32>,
    pub lower_bound: Option<u32>,
    pub upper_bound: Option<u32>,
}

impl View for Port {
    type V = PortV;

    open spec fn view(&self) -> PortV {
        PortV {
            kind: self.kind,
            name: self.name@,
            hint: self.hint,
            default: self.default,
            lower_bound: self.lower_bound,
            upper_bound: self.upper_bound,
        }
    }
}

impl Clone for Port {
    fn clone(&self) -> (r: Self)
        ensures
            r@ == self@,
    {
        Port {
            kind: self.kind,
            name: copy_bytes(&self.name),
            hint: self.hint,
            default: self.default,
            lower_bound: self.lower_bound,
            upper_bound: self.upper_bound,
        }
    }
}

/// The range-hint record of the host interface: a hint bit set and the
/// two bounds as raw 32-bit float patterns.
#[derive(Clone, Copy, PartialEq, Eq, Structural, Debug)]
pub struct PortRangeHint {
    /// Hint bit set: author hints, default marker, and boundedness bits.
    pub hint_descriptor: i32,
    /// Bit pattern of the lower bound; zero when no bound was declared.
    pub lower_bound: u32,
    /// Bit pattern of the upper bound; zero when no bound was declared.
    pub upper_bound: u32,
}

/// The hint bit set marshaled for a port: the author's hint bits, or'd
/// with the default-value marker and with one boundedness bit per
/// declared bound.
pub open spec fn hint_bits(p: PortV) -> i32 {
    (match p.hint {
        Some(h) => h,
        None => 0,
    }) | (match p.default {
        Some(d) => d,
        None => 0,
    }) | (if p.lower_bound is Some {
        HINT_BOUNDED_BELOW
    } else {
        0
    }) | (if p.upper_bound is Some {
        HINT_BOUNDED_ABOVE
    } else {
        0
    })
}

/// The whole range-hint record marshaled for a port.
pub open spec fn hint_of(p: PortV) -> PortRangeHint {
    PortRangeHint {
        hint_descriptor: hint_bits(p),
        lower_bound: match p.lower_bound {
            Some(b) => b,
            None => 0,
        },
        upper_bound: match p.upper_bound {
            Some(b) => b,
            None => 0,
        },
    }
}

/// Builds the range-hint record of one declared port.
pub fn range_hint_of(p: &Port) -> (r: PortRangeHint)
    ensures
        r == hint_of(p@),
{
    let hint: i32 = match p.hint {
        Some(h) => h,
        None => 0,
    };
    let default: i32 = match p.default {
        Some(d) => d,
        None => 0,
    };
    let below: i32 = match p.lower_bound {
        Some(_) => HINT_BOUNDED_BELOW,
        None => 0,
    };
    let above: i32 = match p.upper_bound {
        Some(_) => HINT_BOUNDED_ABOVE,
        None => 0,
    };
    PortRangeHint {
        hint_descriptor: hint | default | below | above,
        lower_bound: match p.lower_bound {
            Some(b) => b,
            None => 0,
        },
        upper_bound: match p.upper_bound {
            Some(b) => b,
            None => 0,
        },
    }
}

/// A native plugin description as the plugin author states it: identity,
/// capability bits, and the ordered list of declared ports.
pub struct PluginDescriptor {
    /// Unique identifier assigned to the plugin type.
    pub unique_id: u64,
    /// Short label, as raw bytes without a terminator.
    pub label: Vec<u8>,
    /// Capability bit set (`PROPERTY_*`).
    pub properties: i32,
    /// Display name, as raw bytes without a terminator.
    pub name: Vec<u8>,
    /// Maker credit, as raw bytes without a terminator.
    pub maker: Vec<u8>,
    /// Copyright line, as raw bytes without a terminator.
    pub copyright: Vec<u8>,
    /// Declared ports, ordered by port number.
    pub ports: Vec<Port>,
}

/// Mathematical value of a plugin description.
#[verifier::ext_equal]
pub ghost struct PluginV {
    pub unique_id: u64,
    pub label: Seq<u8>,
    pub properties: i32,
    pub name: Seq<u8>,
    pub maker: Seq<u8>,
    pub copyright: Seq<u8>,
    pub ports: Seq<PortV>,
}

impl View for PluginDescriptor {
    type V = PluginV;

    open spec fn view(&self) -> PluginV {
        PluginV {
            unique_id: self.unique_id,
            label: self.label@,
            properties: self.properties,
            name: self.name@,
            maker: self.maker@,
            copyright: self.copyright@,
            ports: Seq::new(self.ports@.len(), |i: int| self.ports@[i]@),
        }
    }
}

/// The host-visible descriptor record in the fixed layout the host
/// expects: null-terminated strings and three parallel per-port arrays.
/// The bridge's unmanaged layer copies these values verbatim into the
/// memory handed to the host.
pub struct Descriptor {
    /// Unique identifier, copied from the description.
    pub unique_id: u64,
    /// Null-terminated label bytes.
    pub label: Vec<u8>,
    /// Capability bit set, copied from the description.
    pub properties: i32,
    /// Null-terminated display-name bytes.
    pub name: Vec<u8>,
    /// Null-terminated maker bytes.
    pub maker: Vec<u8>,
    /// Null-terminated copyright bytes.
    pub copyright: Vec<u8>,
    /// Number of declared ports.
    pub port_count: u64,
    /// Per-port kind bit sets, parallel to the declared ports.
    pub port_descriptors: Vec<i32>,
    /// Per-port null-terminated names, parallel to the declared ports.
    pub port_names: Vec<Vec<u8>>,
    /// Per-port range-hint records, parallel to the declared ports.
    pub port_range_hints: Vec<PortRangeHint>,
}

/// Mathematical value of a host-visible descriptor record.
#[verifier::ext_equal]
pub ghost struct DescriptorV {
    pub unique_id: u64,
    pub label: Seq<u8>,
    pub properties: i32,
    pub name: Seq<u8>,
    pub maker: Seq<u8>,
    pub copyright: Seq<u8>,
    pub port_count: nat,
    pub port_descriptors: Seq<i32>,
    pub port_names: Seq<Seq<u8>>,
    pub port_range_hints: Seq<PortRangeHint>,
}

impl View for Descriptor {
    type V = DescriptorV;

    open spec fn view(&self) -> DescriptorV {
        DescriptorV {
            unique_id: self.unique_id,
            label: self.label@,
            properties: self.properties,
            name: self.name@,
            maker: self.maker@,
            copyright: self.copyright@,
            port_count: self.port_count as nat,
            port_descriptors: self.port_descriptors@,
            port_names: Seq::new(self.port_names@.len(), |i: int| self.port_names@[i]@),
            port_range_hints: self.port_range_hints@,
        }
    }
}

/// The descriptor record that marshaling a plugin description yields:
/// identity and capability bits copied verbatim, every string
/// null-terminated, and one entry per declared port in each of the three
/// parallel arrays.
pub open spec fn descriptor_of(p: PluginV) -> DescriptorV {
    DescriptorV {
        unique_id: p.unique_id,
        label: c_bytes(p.label),
        properties: p.properties,
        name: c_bytes(p.name),
        maker: c_bytes(p.maker),
        copyright: c_bytes(p.copyright),
        port_count: p.ports.len(),
        port_descriptors: Seq::new(p.ports.len(), |i: int| kind_bits(p.ports[i].kind)),
        port_names: Seq::new(p.ports.len(), |i: int| c_bytes(p.ports[i].name)),
        port_range_hints: Seq::new(p.ports.len(), |i: int| hint_of(p.ports[i])),
    }
}

/// Round trip: the marshaled record of a plugin description reads back
/// the description's values exactly — the port count, each port's kind
/// bit set, and each port's name, which is recovered by dropping the
/// single appended terminator.
pub proof fn lemma_marshal_round_trip(p: PluginV)
    ensures
        descriptor_of(p).port_count == p.ports.len(),
        forall|i: int|
            0 <= i < p.ports.len() ==> descriptor_of(p).port_descriptors[i] == kind_bits(
                p.ports[i].kind,
            ),
        forall|i: int|
            0 <= i < p.ports.len() ==> descriptor_of(p).port_names[i] == c_bytes(p.ports[i].name),
        forall|i: int|
            0 <= i < p.ports.len() ==> descriptor_of(p).port_names[i].drop_last() == p.ports[i].name,
        descriptor_of(p).label.drop_last() == p.label,
{
    assert forall|i: int|
        0 <= i < p.ports.len() implies descriptor_of(p).port_names[i].drop_last()
        == p.ports[i].name by {
        assert(descriptor_of(p).port_names[i].drop_last() =~= p.ports[i].name);
    }
    assert(descriptor_of(p).label.drop_last() =~= p.label);
}

/// Marshals a plugin description into the host-visible descriptor record.
pub fn build_descriptor(plugin: &PluginDescriptor) -> (d: Descriptor)
    ensures
        d@ == descriptor_of(plugin@),
{
    let n = plugin.ports.len();
    let mut port_descriptors: Vec<i32> = Vec::new();
    let mut port_names: Vec<Vec<u8>> = Vec::new();
    let mut port_range_hints: Vec<PortRangeHint> = Vec::new();
    let mut i: usize = 0;
    while i < n
        invariant
            n == plugin.ports@.len(),
            i <= n,
            port_descriptors@.len() == i,
            port_names@.len() == i,
            port_range_hints@.len() == i,
            forall|j: int| 0 <= j < i ==> port_descriptors@[j] == kind_bits(plugin.ports@[j]@.kind),
            forall|j: int| 0 <= j < i ==> port_names@[j]@ == c_bytes(plugin.ports@[j]@.name),
            forall|j: int| 0 <= j < i ==> port_range_hints@[j] == hint_of(plugin.ports@[j]@),
        decreases n - i,
    {
        let port = &plugin.ports[i];
        port_descriptors.push(port_kind_bits(port.kind));
        port_names.push(make_c_str(&port.name));
        port_range_hints.push(range_hint_of(port));
        i += 1;
    }
    let d = Descriptor {
        unique_id: plugin.unique_id,
        label: make_c_str(&plugin.label),
        properties: plugin.properties,
        name: make_c_str(&plugin.name),
        maker: make_c_str(&plugin.maker),
        copyright: make_c_str(&plugin.copyright),
        port_count: n as u64,
        port_descriptors,
        port_names,
        port_range_hints,
    };
    proof {
        assert(d@.port_descriptors =~= descriptor_of(plugin@).port_descriptors);
        assert(d@.port_names =~~= descriptor_of(plugin@).port_names);
        assert(d@.port_range_hints =~= descriptor_of(plugin@).port_range_hints);
        assert(d@ =~~= descriptor_of(plugin@));
    }
    d
}

} // verus!
