use vstd::prelude::*;

verus! {

/// The result of a version-5 UUID computation over a namespace and a
/// name, as sixteen big-endian bytes.
pub uninterp spec fn uuid_v5_of(namespace: Seq<u8>, name: Seq<u8>) -> Seq<u8>;

/// Relies on uuid::Uuid::new_v5: the version-5 UUID is a pure function
/// of the namespace bytes and the name bytes (a SHA-1 digest with fixed
/// version and variant bits), returned in big-endian byte order.
#[verifier::external_body]
fn uuid_v5(namespace: &[u8; 16], name: &[u8]) -> (r: [u8; 16])
    ensures
        r@ == uuid_v5_of(namespace@, name@),
{
    uuid::Uuid::new_v5(&uuid::Uuid::from_bytes(*namespace), name).into_bytes()
}

/// The byte form of the standard DNS namespace identifier.
pub open spec fn spec_dns_namespace() -> Seq<u8> {
    seq![
        0x6Bu8,
        0xA7u8,
        0xB8u8,
        0x10u8,
        0x9Du8,
        0xADu8,
        0x11u8,
        0xD1u8,
        0x80u8,
        0xB4u8,
        0x00u8,
        0xC0u8,
        0x4Fu8,
        0xD4u8,
        0x30u8,
        0xC8u8,
    ]
}

/// The vendor domain name, "ledger.fr", hashed into the device namespace.
pub open spec fn spec_vendor_name() -> Seq<u8> {
    seq![0x6Cu8, 0x65u8, 0x64u8, 0x67u8, 0x65u8, 0x72u8, 0x2Eu8, 0x66u8, 0x72u8]
}

/// Derives the device identity from its serial: a version-5 UUID of the
/// serial bytes under a vendor namespace itself derived from the DNS
/// namespace.
pub fn device_uuid(serial: &[u8]) -> (r: [u8; 16])
    ensures
        r@ == uuid_v5_of(uuid_v5_of(spec_dns_namespace(), spec_vendor_name()), serial@),
{
    let dns: [u8; 16] = [
        0x6B,
        0xA7,
        0xB8,
        0x10,
        0x9D,
        0xAD,
        0x11,
        0xD1,
        0x80,
        0xB4,
        0x00,
        0xC0,
        0x4F,
        0xD4,
        0x30,
        0xC8,
    ];
    let name: [u8; 9] = [0x6C, 0x65, 0x64, 0x67, 0x65, 0x72, 0x2E, 0x66, 0x72];
    proof {
        assert(dns@ =~= spec_dns_namespace());
        assert(name@ =~= spec_vendor_name());
    }
    let namespace = uuid_v5(&dns, name.as_slice());
    uuid_v5(&namespace, serial)
}

} // verus!
