//! The packet under which the service is found in the DHT.
use vstd::prelude::*;

verus! {

/// Seconds between two publications of the packet: 1 hour.
pub const REPUBLISH_INTERVAL_SECS: u64 = 3_600;

/// Seconds for which the records hold: 3 hours.
pub const RECORD_TTL_SECS: u32 = 10_800;

/// Priority of the service record.
pub const SERVICE_PRIORITY: u16 = 1;

/// Number of bytes before the DNS packet in a signed packet: key, signature and timestamp.
pub const SIGNED_PACKET_HEADER: usize = 104;

/// Address of the service.
#[derive(Debug, Clone, Copy, PartialEq, Eq, Structural)]
pub enum PublicIp {
    V4(u32),
    V6(u128),
}

/// Information needed to publish the service.
#[derive(Debug, Clone, PartialEq, Eq)]
pub struct KeyRepublisherContext {
    pub public_ip: PublicIp,
    pub public_pubky_tls_port: u16,
    /// Secret key that the packet is signed with.
    pub secret_key: [u8; 32],
}

/// The builder of a signed packet, as `pkarr` holds it.
#[verifier::external_type_specification]
#[verifier::external_body]
pub struct ExSignedPacketBuilder(pubky::pkarr::SignedPacketBuilder);

/// A DNS record of a packet.
#[verifier::ext_equal]
pub enum RecordView {
    /// Where a service is found: target, port and a hint at its address.
    Https {
        owner: Seq<char>,
        priority: u16,
        target: Seq<char>,
        port: u16,
        hint: PublicIp,
        ttl: u32,
    },
    /// An `A` or an `AAAA` record.
    Address { owner: Seq<char>, address: PublicIp, ttl: u32 },
}

/// The records of a builder, in the order in which they were inserted.
pub uninterp spec fn builder_records(builder: pubky::pkarr::SignedPacketBuilder) -> Seq<RecordView>;

/// Whether a name is the root, which stands for the key that signs the packet.
pub open spec fn is_root(name: Seq<char>) -> bool {
    name == "."@
}

/// `pkarr::SignedPacket::builder`: a builder without records.
#[verifier::external_body]
fn new_builder() -> (r: pubky::pkarr::SignedPacketBuilder)
    ensures
        builder_records(r) == Seq::<RecordView>::empty(),
{
    pubky::pkarr::SignedPacket::builder()
}

/// `pkarr::SignedPacketBuilder::https`, with a service record that has a port and a hint at an
/// IPv4 address: inserts it as the last record.
#[verifier::external_body]
fn add_https_ipv4(
    builder: pubky::pkarr::SignedPacketBuilder,
    owner: &str,
    priority: u16,
    target: &str,
    port: u16,
    hint: u32,
    ttl: u32,
) -> (r: pubky::pkarr::SignedPacketBuilder)
    requires
        is_root(owner@),
        is_root(target@),
    ensures
        builder_records(r) == builder_records(builder).push(
            RecordView::Https {
                owner: owner@,
                priority,
                target: target@,
                port,
                hint: PublicIp::V4(hint),
                ttl,
            },
        ),
{
    let target = pubky::pkarr::dns::Name::new_unchecked(target).into_owned();
    let mut svcb = pubky::pkarr::dns::rdata::SVCB::new(priority, target);
    svcb.set_port(port);
    svcb.set_ipv4hint(&[hint]);
    builder.https(pubky::pkarr::dns::Name::new_unchecked(owner), svcb, ttl)
}

/// `pkarr::SignedPacketBuilder::https`, with a service record that has a port and a hint at an
/// IPv6 address: inserts it as the last record.
#[verifier::external_body]
fn add_https_ipv6(
    builder: pubky::pkarr::SignedPacketBuilder,
    owner: &str,
    priority: u16,
    target: &str,
    port: u16,
    hint: u128,
    ttl: u32,
) -> (r: pubky::pkarr::SignedPacketBuilder)
    requires
        is_root(owner@),
        is_root(target@),
    ensures
        builder_records(r) == builder_records(builder).push(
            RecordView::Https {
                owner: owner@,
                priority,
                target: target@,
                port,
                hint: PublicIp::V6(hint),
                ttl,
            },
        ),
{
    let target = pubky::pkarr::dns::Name::new_unchecked(target).into_owned();
    let mut svcb = pubky::pkarr::dns::rdata::SVCB::new(priority, target);
    svcb.set_port(port);
    svcb.set_ipv6hint(&[hint]);
    builder.https(pubky::pkarr::dns::Name::new_unchecked(owner), svcb, ttl)
}

/// `pkarr::SignedPacketBuilder::a`: inserts an `A` record as the last record.
#[verifier::external_body]
fn add_a(
    builder: pubky::pkarr::SignedPacketBuilder,
    owner: &str,
    address: u32,
    ttl: u32,
) -> (r: pubky::pkarr::SignedPacketBuilder)
    requires
        is_root(owner@),
    ensures
        builder_records(r) == builder_records(builder).push(
            RecordView::Address { owner: owner@, address: PublicIp::V4(address), ttl },
        ),
{
    builder.a(pubky::pkarr::dns::Name::new_unchecked(owner), address.into(), ttl)
}

/// `pkarr::SignedPacketBuilder::aaaa`: inserts an `AAAA` record as the last record.
#[verifier::external_body]
fn add_aaaa(
    builder: pubky::pkarr::SignedPacketBuilder,
    owner: &str,
    address: u128,
    ttl: u32,
) -> (r: pubky::pkarr::SignedPacketBuilder)
    requires
        is_root(owner@),
    ensures
        builder_records(r) == builder_records(builder).push(
            RecordView::Address { owner: owner@, address: PublicIp::V6(address), ttl },
        ),
{
    builder.aaaa(pubky::pkarr::dns::Name::new_unchecked(owner), address.into(), ttl)
}

/// What `pkarr::SignedPacketBuilder::build` encodes of records for a secret key: a DNS packet in
/// which the root is the public key, or the text of its error.
pub uninterp spec fn encoded_packet(
    secret_key: Seq<u8>,
    records: Seq<RecordView>,
) -> Result<Seq<u8>, Seq<char>>;

/// The bytes of the public key that `pkarr::Keypair::public_key` gives for a secret key.
pub uninterp spec fn public_key_bytes(secret_key: Seq<u8>) -> Seq<u8>;

/// The bytes of the signature that `pkarr::Keypair::sign` gives with a secret key, on a timestamp
/// in big-endian bytes and a DNS packet.
pub uninterp spec fn packet_signature(
    secret_key: Seq<u8>,
    timestamp: Seq<u8>,
    packet: Seq<u8>,
) -> Seq<u8>;

/// The DNS packet inside a signed packet, or the text of an error.
pub open spec fn dns_packet(r: Result<Vec<u8>, String>) -> Result<Seq<u8>, Seq<char>> {
    match r {
        Ok(bytes) => Ok(bytes@.skip(SIGNED_PACKET_HEADER as int)),
        Err(e) => Err(e@),
    }
}

/// Whether bytes are a packet signed with a secret key: the public key, the signature, a
/// timestamp, and the DNS packet that is signed together with the timestamp.
pub open spec fn is_signed_with(bytes: Seq<u8>, secret_key: Seq<u8>) -> bool {
    &&& bytes.len() >= SIGNED_PACKET_HEADER
    &&& bytes.take(32) == public_key_bytes(secret_key)
    &&& bytes.subrange(32, 96) == packet_signature(
        secret_key,
        bytes.subrange(96, 104),
        bytes.skip(SIGNED_PACKET_HEADER as int),
    )
}

/// `pkarr::SignedPacketBuilder::build` with the key pair of a secret key: the signed packet in
/// bytes. The DNS packet inside is a function of the key and the records, and the signature one of
/// the key, the timestamp and the DNS packet. The timestamp itself is left unsaid: it rests on the
/// clock.
#[verifier::external_body]
fn sign_packet(builder: pubky::pkarr::SignedPacketBuilder, secret_key: &[u8; 32]) -> (r: Result<
    Vec<u8>,
    String,
>)
    ensures
        dns_packet(r) == encoded_packet(secret_key@, builder_records(builder)),
        r matches Ok(bytes) ==> bytes@.len() >= SIGNED_PACKET_HEADER && bytes@.take(32)
            == public_key_bytes(secret_key@) && bytes@.subrange(32, 96) == packet_signature(
            secret_key@,
            bytes@.subrange(96, 104),
            bytes@.skip(SIGNED_PACKET_HEADER as int),
        ),
{
    match builder.build(&pubky::pkarr::Keypair::from_secret_key(secret_key)) {
        Ok(packet) => Ok(packet.as_bytes().to_vec()),
        Err(e) => Err(e.to_string()),
    }
}

/// The records under which a service is found: an `HTTPS` record that points to the pubky tls
/// port and the public address, which all applications but browsers use, and an address record
/// for regular browser connections.
pub open spec fn service_records(context: KeyRepublisherContext) -> Seq<RecordView> {
    seq![
        RecordView::Https {
            owner: "."@,
            priority: SERVICE_PRIORITY,
            target: "."@,
            port: context.public_pubky_tls_port,
            hint: context.public_ip,
            ttl: RECORD_TTL_SECS,
        },
        RecordView::Address {
            owner: "."@,
            address: context.public_ip,
            ttl: RECORD_TTL_SECS,
        },
    ]
}

/// The packet under which the service is found, signed with its key.
pub fn create_signed_packet(context: &KeyRepublisherContext) -> (r: Result<Vec<u8>, String>)
    ensures
        dns_packet(r) == encoded_packet(context.secret_key@, service_records(*context)),
        r matches Ok(bytes) ==> is_signed_with(bytes@, context.secret_key@),
{
    let port: u16 = context.public_pubky_tls_port;
    let ttl: u32 = RECORD_TTL_SECS;
    let empty = new_builder();
    let builder = match context.public_ip {
        PublicIp::V4(ip) => {
            let builder = add_https_ipv4(empty, ".", SERVICE_PRIORITY, ".", port, ip, ttl);
            add_a(builder, ".", ip, ttl)
        },
        PublicIp::V6(ip) => {
            let builder = add_https_ipv6(empty, ".", SERVICE_PRIORITY, ".", port, ip, ttl);
            add_aaaa(builder, ".", ip, ttl)
        },
    };
    assert(builder_records(builder) =~= service_records(*context));
    sign_packet(builder, &context.secret_key)
}

/// What follows from an attempt to start the periodic publication.
#[derive(Debug, Clone, PartialEq, Eq)]
pub enum RepublishStep {
    /// Publish again after the given number of seconds, and so on until stopped.
    PublishEvery(u64),
    /// Nothing is started.
    Fail(String),
}

/// Decides on the start of the periodic publication. There is none where one runs already, and the
/// first publication, which came to `published`, has to succeed. Once it has, the packet is
/// published every hour, and later failures are only logged.
pub fn start_periodic_republish(running: bool, published: Result<(), String>) -> (r: RepublishStep)
    ensures
        if running {
            r matches RepublishStep::Fail(e) && e@ == "The packet is republished already"@
        } else {
            r == (match published {
                Ok(_) => RepublishStep::PublishEvery(REPUBLISH_INTERVAL_SECS),
                Err(e) => RepublishStep::Fail(e),
            })
        },
{
    if running {
        return RepublishStep::Fail("The packet is republished already".to_owned());
    }
    match published {
        Ok(_) => RepublishStep::PublishEvery(REPUBLISH_INTERVAL_SECS),
        Err(e) => RepublishStep::Fail(e),
    }
}

/// The records outlive the interval between two publications.
pub proof fn law_records_outlive_the_interval()
    ensures
        RECORD_TTL_SECS > REPUBLISH_INTERVAL_SECS,
{
}

/// A service is found at its own address, by browsers and by all others, and at its own port, under the
/// key that signs the packet.
pub proof fn law_services_are_found_at_their_address(context: KeyRepublisherContext)
    ensures
        ({
            let records = service_records(context);
            &&& records.len() == 2
            &&& records[0] matches RecordView::Https { owner, target, port, hint, .. } && is_root(
                owner,
            ) && is_root(target) && port == context.public_pubky_tls_port && hint
                == context.public_ip
            &&& records[1] matches RecordView::Address { owner, address, .. } && is_root(owner)
                && address == context.public_ip
        }),
{
}

} // verus!
