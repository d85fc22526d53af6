use anchor_lang::solana_program::pubkey::Pubkey;
use anchor_lang::solana_program::system_instruction;
use nft_marketplace::{
    purchase_payment, AccountRole, Identity, NftListingAccount, PurchaseNft,
};

fn seller() -> Identity {
    Identity::new([0x11; 32])
}

fn buyer() -> Identity {
    let mut bytes = [0u8; 32];
    for (i, byte) in bytes.iter_mut().enumerate() {
        *byte = i as u8;
    }
    Identity::new(bytes)
}

fn sale_at(price: u64) -> PurchaseNft {
    let mut record = NftListingAccount::new(seller(), "T".to_string(), "U".to_string());
    record.is_listed = true;
    record.sale_price = price;
    PurchaseNft { listing_account: record, listing_owner: seller(), purchaser: buyer() }
}

#[test]
fn the_payment_is_a_system_transfer_of_the_price_from_buyer_to_owner() {
    let instruction = purchase_payment(&sale_at(100), 100).unwrap();
    assert_eq!(instruction.program_id, Identity::new([0; 32]));
    assert_eq!(
        instruction.accounts,
        vec![
            AccountRole { key: buyer(), is_signer: true, is_writable: true },
            AccountRole { key: seller(), is_signer: false, is_writable: true },
        ]
    );
    assert_eq!(instruction.data, vec![2, 0, 0, 0, 100, 0, 0, 0, 0, 0, 0, 0]);
}

#[test]
fn the_amount_is_written_lowest_byte_first() {
    let instruction = purchase_payment(&sale_at(0x0102_0304_0506_0708), 0x0102_0304_0506_0708)
        .unwrap();
    assert_eq!(instruction.data, vec![2, 0, 0, 0, 8, 7, 6, 5, 4, 3, 2, 1]);

    let instruction = purchase_payment(&sale_at(u64::MAX), u64::MAX).unwrap();
    assert_eq!(
        instruction.data,
        vec![2, 0, 0, 0, 255, 255, 255, 255, 255, 255, 255, 255]
    );

    let instruction = purchase_payment(&sale_at(256), 256).unwrap();
    assert_eq!(instruction.data, vec![2, 0, 0, 0, 0, 1, 0, 0, 0, 0, 0, 0]);
}

#[test]
fn the_payment_is_what_the_system_interface_builds() {
    let built = system_instruction::transfer(
        &Pubkey::new_from_array(buyer().to_bytes()),
        &Pubkey::new_from_array(seller().to_bytes()),
        4_000_000_000,
    );
    let instruction = purchase_payment(&sale_at(4_000_000_000), 4_000_000_000).unwrap();
    assert_eq!(instruction.program_id.to_bytes(), built.program_id.to_bytes());
    assert_eq!(instruction.data, built.data);
    assert_eq!(instruction.accounts.len(), built.accounts.len());
    for (role, meta) in instruction.accounts.iter().zip(built.accounts.iter()) {
        assert_eq!(role.key.to_bytes(), meta.pubkey.to_bytes());
        assert_eq!(role.is_signer, meta.is_signer);
        assert_eq!(role.is_writable, meta.is_writable);
    }
}

#[test]
fn asking_for_the_payment_changes_nothing() {
    let ctx = sale_at(100);
    let before = ctx.clone();
    let _ = purchase_payment(&ctx, 100);
    let _ = purchase_payment(&ctx, 1);
    assert_eq!(ctx, before);
}
