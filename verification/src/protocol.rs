//! The closed set of transport protocol bindings a subscription can name.

use std::collections::HashMap;
use vstd::prelude::*;
use vstd::string::StringExecFns;

use crate::text::{bool_to_str, spec_bool_text, spec_dec_nat, u64_to_string};

verus! {

/// A transport binding: exactly one variant is active, and each variant
/// carries the required and optional fields fixed by its protocol's
/// semantics. No range validation is done here (an MQTT quality of
/// service outside 0 through 2 is carried uninterpreted); checking such
/// conventions is the consumer's responsibility.
#[derive(Clone, Debug)]
pub enum Protocol {
    AMQP {
        address: Option<String>,
        link_name: Option<String>,
        link_properties: Option<HashMap<String, String>>,
        sender_settlement_mode: String,
    },
    ApacheKafka {
        acks: Option<String>,
        client_id: Option<String>,
        partition_key_extractor: String,
        topic_name: Option<String>,
    },
    HTTP {
        method: String,
        headers: Option<HashMap<String, String>>,
    },
    MQTT {
        expiry: u64,
        qos: u8,
        retain: bool,
        topic_name: String,
        user_properties: Option<HashMap<String, String>>,
    },
    NATS {
        subject: String,
    },
}

/// The text an optional scalar field shows in a display summary: the field
/// itself when present, the literal token `None` otherwise.
pub open spec fn spec_opt_text(o: Option<String>) -> Seq<char> {
    match o {
        Option::Some(s) => s@,
        Option::None => "None"@,
    }
}

/// The exact display summary of a protocol binding: the protocol's name
/// followed by its scalar identifying fields. Map-typed optional fields
/// (headers, link properties, user properties) are never rendered.
pub open spec fn spec_display(p: Protocol) -> Seq<char> {
    match p {
        Protocol::AMQP { address, link_name, sender_settlement_mode, .. } => "AMQP (address="@
            + spec_opt_text(address) + ", link_name="@ + spec_opt_text(link_name)
            + ", sender_settlement_mode="@ + sender_settlement_mode@ + ")"@,
        Protocol::ApacheKafka { acks, client_id, partition_key_extractor, topic_name } => "Apache Kafka (acks="@
            + spec_opt_text(acks) + ", client_id="@ + spec_opt_text(client_id) + ", partition_key="@
            + partition_key_extractor@ + ", topic_name="@ + spec_opt_text(topic_name) + ")"@,
        Protocol::HTTP { method, .. } => "HTTP (method="@ + method@ + ")"@,
        Protocol::MQTT { expiry, qos, retain, topic_name, .. } => "MQTT (expiry="@
            + spec_dec_nat(expiry as nat) + ", qos="@ + spec_dec_nat(qos as nat) + ", retain="@
            + spec_bool_text(retain) + ", topic_name="@ + topic_name@ + ")"@,
        Protocol::NATS { subject } => "NATS (subject="@ + subject@ + ")"@,
    }
}

fn append_opt(s: &mut String, o: &Option<String>)
    ensures
        final(s)@ == old(s)@ + spec_opt_text(*o),
{
    match o {
        Option::Some(v) => s.append(v.as_str()),
        Option::None => s.append("None"),
    }
}

impl Protocol {
    /// The human-readable summary of this binding. Never fails, renders
    /// every variant under its protocol name, and substitutes the token
    /// `None` for each absent optional scalar field.
    pub fn to_display_string(&self) -> (r: String)
        ensures
            r@ == spec_display(*self),
    {
        match self {
            Protocol::AMQP { address, link_name, sender_settlement_mode, .. } => {
                let mut s = String::from_str("AMQP (address=");
                append_opt(&mut s, address);
                s.append(", link_name=");
                append_opt(&mut s, link_name);
                s.append(", sender_settlement_mode=");
                s.append(sender_settlement_mode.as_str());
                s.append(")");
                proof {
                    assert(s@ =~= spec_display(*self));
                }
                s
            },
            Protocol::ApacheKafka { acks, client_id, partition_key_extractor, topic_name } => {
                let mut s = String::from_str("Apache Kafka (acks=");
                append_opt(&mut s, acks);
                s.append(", client_id=");
                append_opt(&mut s, client_id);
                s.append(", partition_key=");
                s.append(partition_key_extractor.as_str());
                s.append(", topic_name=");
                append_opt(&mut s, topic_name);
                s.append(")");
                proof {
                    assert(s@ =~= spec_display(*self));
                }
                s
            },
            Protocol::HTTP { method, .. } => {
                let mut s = String::from_str("HTTP (method=");
                s.append(method.as_str());
                s.append(")");
                proof {
                    assert(s@ =~= spec_display(*self));
                }
                s
            },
            Protocol::MQTT { expiry, qos, retain, topic_name, .. } => {
                let mut s = String::from_str("MQTT (expiry=");
                let expiry_text = u64_to_string(*expiry);
                s.append(expiry_text.as_str());
                s.append(", qos=");
                let qos_text = u64_to_string(*qos as u64);
                s.append(qos_text.as_str());
                s.append(", retain=");
                s.append(bool_to_str(*retain));
                s.append(", topic_name=");
                s.append(topic_name.as_str());
                s.append(")");
                proof {
                    assert(s@ =~= spec_display(*self));
                }
                s
            },
            Protocol::NATS { subject } => {
                let mut s = String::from_str("NATS (subject=");
                s.append(subject.as_str());
                s.append(")");
                proof {
                    assert(s@ =~= spec_display(*self));
                }
                s
            },
        }
    }
}

} // verus!
