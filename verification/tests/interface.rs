use thingy_program::instruction::{
    encode_instruction, InstructionThingArgs, InstructionThingy,
};
use thingy_program::interface::{
    Capability, Feature, MasterEdition, MetadataAccount, Royalties, Subscription,
};

fn sample_metadata() -> MetadataAccount {
    let edition = MasterEdition::new(3, Some(10), String::from("someone"));
    let royalties = Royalties { creators: vec![[1u8; 32], [2u8; 32]] };
    MetadataAccount {
        name: String::from("a name"),
        description: String::from("a description"),
        uri: String::from("a uri"),
        capabilities: vec![
            Capability::MasterEdition(edition),
            Capability::Royalties(royalties),
        ],
    }
}

#[test]
fn master_edition_new_keeps_fields() {
    let e = MasterEdition::new(3, Some(10), String::from("someone"));
    assert_eq!(e.supply, 3);
    assert_eq!(e.max_supply, Some(10));
    assert_eq!(e.artist_name, "someone");
    assert_eq!(MasterEdition::get_supply(&e), 3);
}

#[test]
fn metadata_features_follow_capabilities() {
    let m = sample_metadata();
    assert_eq!(m.features(), vec![Feature::MasterEdition, Feature::Royalties]);
    assert_eq!(m.name(), "a name");
    assert_eq!(m.description(), "a description");
    assert_eq!(m.uri(), "a uri");
}

#[test]
fn metadata_capability_lookup() {
    let m = sample_metadata();
    let edition = m.master_edition().expect("edition should be present");
    assert_eq!(edition.supply, 3);
    let royalties = m.royalties().expect("royalties should be present");
    assert_eq!(royalties.creators().len(), 2);
    assert!(m.subscription().is_none());
}

#[test]
fn metadata_subscription_lookup() {
    let mut m = sample_metadata();
    m.capabilities.push(Capability::Subscription(Subscription { price: 7, period: 30 }));
    let s = m.subscription().expect("subscription should be present");
    assert_eq!(s.price, 7);
    assert_eq!(s.period, 30);
}

#[test]
fn instruction_exact_wire_bytes() {
    let ins = InstructionThingy::InstructionThing(InstructionThingArgs { value: 42 });
    let bytes = encode_instruction(&ins);
    assert_eq!(bytes, vec![0u8, 42, 0, 0, 0, 0, 0, 0, 0]);
}

#[test]
fn discriminator_is_highest_valid() {
    let pid = [7u8; 32];
    let payer_key = [1u8; 32];
    let value: u64 = 42;
    let mut seeds: Vec<Vec<u8>> = Vec::new();
    seeds.push(b"test".to_vec());
    seeds.push(payer_key.to_vec());
    seeds.push(value.to_le_bytes().to_vec());
    let (_, bump) =
        thingy_program::derivation::derive(&pid, &seeds).expect("derivation should succeed");
    let host_pid = solana_program::pubkey::Pubkey::new_from_array(pid);
    let mut b: u16 = bump as u16 + 1;
    while b <= 255 {
        let r = solana_program::pubkey::Pubkey::create_program_address(
            &[b"test", &payer_key, &value.to_le_bytes(), &[b as u8]],
            &host_pid,
        );
        assert!(r.is_err(), "a discriminator above the canonical one must fail");
        b += 1;
    }
}
