//! Changing the photo visibility from inside VRChat over OSC.
//!
//! The avatar parameter `/avatar/parameters/EterPixVisibility` carries an int:
//! 0 means "no value" and is ignored, 1 means the avatar was reset (the current
//! visibility is sent again), 2 to 6 select a visibility.  Every change is
//! confirmed by sending the new value back.

use vstd::prelude::*;
use vstd::string::StringSliceAdditionalSpecFns;
use vstd::utf8::encode_utf8;
use crate::text::{
    decimal, decimal_string, digits_value, is_decimal_digit, lemma_decimal_reads_back, str_eq,
};
use crate::visibility::{
    is_known_visibility, lemma_visibility_roundtrip, osc_to_visibility, osc_visibility_spec,
    visibility_osc_spec, visibility_to_osc,
};

verus! {

/// The avatar parameter that carries the visibility.
pub const OSC_PARAM: &'static str = "/avatar/parameters/EterPixVisibility";

// ------------------------------------------------------------------
// OSC packets
// ------------------------------------------------------------------

/// `n` rounded up to a multiple of 4.
pub open spec fn osc_pad(n: nat) -> nat {
    if n % 4 == 0 {
        n
    } else {
        (n + (4 - n % 4)) as nat
    }
}

/// The four big-endian bytes of an `i32` in two's complement.
pub open spec fn be_i32_bytes(v: i32) -> Seq<u8> {
    let u: int = if v < 0 {
        v + 0x1_0000_0000
    } else {
        v as int
    };
    seq![
        (u / 0x100_0000) as u8,
        ((u / 0x1_0000) % 0x100) as u8,
        ((u / 0x100) % 0x100) as u8,
        (u % 0x100) as u8,
    ]
}

/// An OSC message with address `addr` (its UTF-8 bytes) and one int argument:
/// the address padded with 1 to 4 zero bytes to a multiple of 4, the type tag
/// `,i` padded to 4 bytes, then the value.
pub open spec fn osc_int_message(addr: Seq<u8>, value: i32) -> Seq<u8> {
    addr + Seq::new((osc_pad(addr.len() + 1) - addr.len()) as nat, |i: int| 0u8) + seq![
        44u8,
        105u8,
        0u8,
        0u8,
    ] + be_i32_bytes(value)
}

/// An address a message can carry and be read back with: it starts with `/`
/// and holds no NUL character.
pub open spec fn osc_address_ok(addr: Seq<char>) -> bool {
    &&& addr.len() > 0
    &&& addr[0] == '/'
    &&& forall|i: int| 0 <= i < addr.len() ==> addr[i] != '\0'
}

/// The message `rosc::decoder::decode_udp` reads from a datagram: its address
/// and its first argument when that is an int; `None` when the datagram is not
/// a single OSC message.
pub uninterp spec fn osc_message_of(datagram: Seq<u8>) -> Option<(Seq<char>, Option<i32>)>;

/// Encodes a message with one int argument using `rosc::encoder::encode`.
/// Claimed, from the encoder's source (`encode_message`, `encode_string_into`,
/// `pad`): encoding such a message never fails and gives `osc_int_message`.
#[verifier::external_body]
fn encode_osc_int(addr: &str, value: i32) -> (r: Option<Vec<u8>>)
    ensures
        match r {
            Some(bytes) => bytes@ == osc_int_message(addr.spec_bytes(), value),
            None => false,
        },
{
    let packet = rosc::OscPacket::Message(
        rosc::OscMessage { addr: addr.to_string(), args: vec![rosc::OscType::Int(value)] },
    );
    rosc::encoder::encode(&packet).ok()
}

/// Decodes a datagram with `rosc::decoder::decode_udp` and returns the address
/// and the first argument (when it is an int) of a message; a bundle or an
/// undecodable datagram gives `None`.  Claimed: the outcome is `osc_message_of`,
/// and a datagram in the form `osc_int_message` builds, with a valid address,
/// reads back as that address and value (the decoder reads the NUL-terminated
/// padded address, the `,i` tag and a big-endian `i32`).
#[verifier::external_body]
fn decode_osc_message(datagram: &[u8]) -> (r: Option<(String, Option<i32>)>)
    ensures
        match r {
            Some(m) => osc_message_of(datagram@) == Some((m.0@, m.1)),
            None => osc_message_of(datagram@) is None,
        },
        forall|addr: Seq<char>, value: i32|
            osc_address_ok(addr) && datagram@ == #[trigger] osc_int_message(encode_utf8(addr), value)
                ==> (match r {
                Some(m) => m.0@ == addr && m.1 == Some(value),
                None => false,
            }),
{
    match rosc::decoder::decode_udp(datagram) {
        Ok((_, rosc::OscPacket::Message(msg))) => {
            let first = match msg.args.first() {
                Some(rosc::OscType::Int(v)) => Some(*v),
                _ => None,
            };
            Some((msg.addr, first))
        },
        Ok((_, rosc::OscPacket::Bundle(_))) => None,
        Err(_) => None,
    }
}

/// The datagram that announces `visibility` to VRChat.
pub open spec fn visibility_datagram(visibility: Seq<char>) -> Seq<u8> {
    osc_int_message(OSC_PARAM.spec_bytes(), visibility_osc_spec(visibility))
}

/// The datagram announcing a visibility (the parameter set to its OSC value).
pub fn visibility_packet(visibility: &str) -> (r: Vec<u8>)
    ensures
        r@ == visibility_datagram(visibility@),
{
    let value = visibility_to_osc(visibility);
    match encode_osc_int(OSC_PARAM, value) {
        Some(bytes) => bytes,
        None => Vec::new(),
    }
}

// ------------------------------------------------------------------
// Receiving
// ------------------------------------------------------------------

/// Event passed from the receiver to the application.
pub enum OscEvent {
    VisibilityChanged(String),
}

/// What the receiver does with one message, given the visibility it holds:
/// (visibility afterwards, visibility announced to the application,
/// visibility sent back to VRChat).
pub open spec fn osc_reaction_spec(current: Seq<char>, message: Option<(Seq<char>, Option<i32>)>) -> (
    Seq<char>,
    Option<Seq<char>>,
    Option<Seq<char>>,
) {
    match message {
        Some(m) => if m.0 == OSC_PARAM@ && m.1 is Some {
            let value = m.1->0;
            if value == 0 {
                (current, None, None)
            } else if value == 1 {
                (current, None, Some(current))
            } else {
                match osc_visibility_spec(value) {
                    Some(selected) => if selected != current {
                        (selected, Some(selected), Some(selected))
                    } else {
                        (current, None, None)
                    },
                    None => (current, None, None),
                }
            }
        } else {
            (current, None, None)
        },
        None => (current, None, None),
    }
}

/// What to do after a datagram: an event for the application and a datagram to
/// send back, each when there is one.
pub struct OscReaction {
    pub event: Option<OscEvent>,
    pub reply: Option<Vec<u8>>,
}

/// The receiving side: the visibility it last confirmed.
pub struct OscReceiver {
    pub current: String,
}

impl OscReceiver {
    /// Reacts to a decoded message (address and first int argument).
    pub fn react(&mut self, message: Option<(String, Option<i32>)>) -> (r: OscReaction)
        ensures
            ({
                let m = match message {
                    Some(p) => Some((p.0@, p.1)),
                    None => None,
                };
                let spec = osc_reaction_spec(old(self).current@, m);
                &&& final(self).current@ == spec.0
                &&& match r.event {
                    Some(OscEvent::VisibilityChanged(v)) => spec.1 == Some(v@),
                    None => spec.1 is None,
                }
                &&& match r.reply {
                    Some(bytes) => spec.2 matches Some(v) && bytes@ == visibility_datagram(v),
                    None => spec.2 is None,
                }
            }),
    {
        let none = OscReaction { event: None, reply: None };
        let (addr, arg) = match message {
            Some(m) => m,
            None => return none,
        };
        if !str_eq(addr.as_str(), OSC_PARAM) {
            return none;
        }
        let value = match arg {
            Some(v) => v,
            None => return none,
        };
        if value == 0 {
            return none;
        }
        if value == 1 {
            let reply = visibility_packet(self.current.as_str());
            return OscReaction { event: None, reply: Some(reply) };
        }
        match osc_to_visibility(value) {
            Some(selected) => {
                if !str_eq(selected, self.current.as_str()) {
                    self.current = selected.to_owned();
                    let reply = visibility_packet(self.current.as_str());
                    OscReaction {
                        event: Some(OscEvent::VisibilityChanged(selected.to_owned())),
                        reply: Some(reply),
                    }
                } else {
                    none
                }
            },
            None => none,
        }
    }

    /// Reacts to a received datagram.  A datagram in the form this side sends
    /// (the visibility parameter with an int) is understood as that value.
    pub fn handle_datagram(&mut self, datagram: &[u8]) -> (r: OscReaction)
        ensures
            ({
                let spec = osc_reaction_spec(old(self).current@, osc_message_of(datagram@));
                &&& final(self).current@ == spec.0
                &&& match r.event {
                    Some(OscEvent::VisibilityChanged(v)) => spec.1 == Some(v@),
                    None => spec.1 is None,
                }
                &&& match r.reply {
                    Some(bytes) => spec.2 matches Some(v) && bytes@ == visibility_datagram(v),
                    None => spec.2 is None,
                }
            }),
            forall|value: i32|
                datagram@ == #[trigger] osc_int_message(OSC_PARAM.spec_bytes(), value)
                    ==> osc_message_of(datagram@) == Some((OSC_PARAM@, Some(value))),
    {
        proof {
            lemma_param_address_ok();
        }
        let message = decode_osc_message(datagram);
        self.react(message)
    }
}

proof fn lemma_param_address_ok()
    ensures
        osc_address_ok(OSC_PARAM@),
        OSC_PARAM.spec_bytes() == encode_utf8(OSC_PARAM@),
{
    reveal_strlit("/avatar/parameters/EterPixVisibility");
}

/// A confirmation echoed back changes nothing: when the receiver holds a known
/// visibility and reads the value it sent for it, it neither announces nor sends.
/// An avatar reset (value 1) makes it send its visibility again, unchanged.
pub proof fn lemma_confirmation_is_stable(current: Seq<char>)
    requires
        is_known_visibility(current),
    ensures
        osc_reaction_spec(current, Some((OSC_PARAM@, Some(visibility_osc_spec(current)))))
            == (current, None::<Seq<char>>, None::<Seq<char>>),
        osc_reaction_spec(current, Some((OSC_PARAM@, Some(1i32)))) == (
            current,
            None::<Seq<char>>,
            Some(current),
        ),
{
    lemma_visibility_roundtrip(current);
}

/// Selecting a visibility by its value announces it once and confirms it by
/// sending the same value back; selecting it again changes nothing.
pub proof fn lemma_selection_confirmed(current: Seq<char>, value: i32)
    requires
        2 <= value <= 6,
        osc_visibility_spec(value) != Some(current),
    ensures
        ({
            let selected = osc_visibility_spec(value)->0;
            let r = osc_reaction_spec(current, Some((OSC_PARAM@, Some(value))));
            &&& r == (selected, Some(selected), Some(selected))
            &&& visibility_osc_spec(selected) == value
            &&& osc_reaction_spec(selected, Some((OSC_PARAM@, Some(value)))) == (
                selected,
                None::<Seq<char>>,
                None::<Seq<char>>,
            )
        }),
{
    crate::visibility::lemma_osc_value_roundtrip(value);
}

/// An address `host:port` as the handler writes it names its port: it starts
/// with the host and `:`, and the rest is decimal digits that read back as the
/// port.
pub proof fn lemma_address_names_port(host: Seq<char>, port: u16)
    ensures
        ({
            let a = host + ":"@ + decimal(port as nat);
            &&& a.take(host.len() as int) == host
            &&& a[host.len() as int] == ':'
            &&& digits_value(a.skip(host.len() as int + 1)) == port
            &&& forall|i: int|
                host.len() < i < a.len() ==> is_decimal_digit(#[trigger] a[i])
        }),
{
    reveal_strlit(":");
    lemma_decimal_reads_back(port as nat);
    let a = host + ":"@ + decimal(port as nat);
    assert(a.take(host.len() as int) =~= host);
    assert(a.skip(host.len() as int + 1) =~= decimal(port as nat));
    assert forall|i: int| host.len() < i < a.len() implies is_decimal_digit(#[trigger] a[i]) by {
        assert(a[i] == decimal(port as nat)[i - host.len() - 1]);
    }
}

// ------------------------------------------------------------------
// The handler's state
// ------------------------------------------------------------------

/// State of the OSC link to VRChat (the sockets and the receiving thread are
/// kept by the application).
pub struct OscHandler {
    pub send_port: u16,
    pub recv_port: u16,
    pub host: String,
    pub is_running: bool,
    pub current_visibility: String,
    pub last_recv_value: i32,
}

impl OscHandler {
    /// A stopped link to VRChat on localhost, holding visibility `self`.
    pub fn new(send_port: u16, recv_port: u16) -> (h: Self)
        ensures
            h.send_port == send_port,
            h.recv_port == recv_port,
            h.host@ == "127.0.0.1"@,
            !h.is_running,
            h.current_visibility@ == "self"@,
            h.last_recv_value == 0,
    {
        OscHandler {
            send_port,
            recv_port,
            host: "127.0.0.1".to_owned(),
            is_running: false,
            current_visibility: "self".to_owned(),
            last_recv_value: 0,
        }
    }

    /// `host:port` of VRChat's receiving port.
    pub fn send_address(&self) -> (r: String)
        ensures
            r@ == self.host@ + ":"@ + decimal(self.send_port as nat),
    {
        let mut s = self.host.clone();
        s.append(":");
        let port = decimal_string(self.send_port as u64);
        s.append(port.as_str());
        s
    }

    /// `host:port` this side listens on.
    pub fn recv_address(&self) -> (r: String)
        ensures
            r@ == self.host@ + ":"@ + decimal(self.recv_port as nat),
    {
        let mut s = self.host.clone();
        s.append(":");
        let port = decimal_string(self.recv_port as u64);
        s.append(port.as_str());
        s
    }

    /// The receiver state for a new receiving thread: it starts from the
    /// visibility currently held.
    pub fn receiver(&self) -> (r: OscReceiver)
        ensures
            r.current@ == self.current_visibility@,
    {
        OscReceiver { current: self.current_visibility.clone() }
    }

    /// Marks the link stopped.
    pub fn stop(&mut self)
        ensures
            !final(self).is_running,
            final(self).send_port == old(self).send_port,
            final(self).recv_port == old(self).recv_port,
            final(self).host == old(self).host,
            final(self).current_visibility == old(self).current_visibility,
            final(self).last_recv_value == old(self).last_recv_value,
    {
        self.is_running = false;
    }

    /// Holds `visibility` as the current one and returns the datagram that
    /// announces it to VRChat.
    pub fn send_visibility(&mut self, visibility: &str) -> (r: Vec<u8>)
        ensures
            final(self).current_visibility@ == visibility@,
            r@ == visibility_datagram(visibility@),
            final(self).is_running == old(self).is_running,
            final(self).send_port == old(self).send_port,
            final(self).recv_port == old(self).recv_port,
            final(self).host == old(self).host,
            final(self).last_recv_value == old(self).last_recv_value,
    {
        self.current_visibility = visibility.to_owned();
        visibility_packet(visibility)
    }

    /// The last received value, shown only while the link runs.
    pub fn shown_recv_value(&self) -> (r: Option<i32>)
        ensures
            r == (if self.is_running {
                Some(self.last_recv_value)
            } else {
                None
            }),
    {
        if self.is_running {
            Some(self.last_recv_value)
        } else {
            None
        }
    }

    /// The held visibility, shown only while the link runs.
    pub fn shown_visibility(&self) -> (r: Option<String>)
        ensures
            match r {
                Some(v) => self.is_running && v@ == self.current_visibility@,
                None => !self.is_running,
            },
    {
        if self.is_running {
            Some(self.current_visibility.clone())
        } else {
            None
        }
    }
}

} // verus!
