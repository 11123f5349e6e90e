use pumpfun::accounts::amm::{GlobalConfigAccount, PoolAccount};
use pumpfun::address::Address;

fn sample(seed: u8) -> Address {
    let mut bytes = [0u8; 32];
    for (i, b) in bytes.iter_mut().enumerate() {
        *b = seed.wrapping_mul(7).wrapping_add(i as u8);
    }
    Address::new(bytes)
}

#[test]
fn pool_account_from_data() {
    let pool = PoolAccount::new(253, 0x0201, sample(1), sample(2), sample(3), sample(4), sample(5), sample(6), 1 << 50);
    let mut data = vec![9u8; 8];
    data.extend(
        borsh::to_vec(&(
            pool.pool_bump,
            pool.index,
            pool.creator.to_bytes(),
            pool.base_mint.to_bytes(),
            pool.quote_mint.to_bytes(),
            pool.lp_mint.to_bytes(),
            pool.pool_base_token_account.to_bytes(),
            pool.pool_quote_token_account.to_bytes(),
            pool.lp_supply,
        ))
        .unwrap(),
    );
    assert_eq!(data.len(), PoolAccount::DATA_LEN);
    assert_eq!(PoolAccount::from_account_data(&data), Some(pool));
    assert_eq!(PoolAccount::from_account_data(&data[..210]), None);
    assert_eq!(PoolAccount::from_account_data(&[]), None);
    data.extend_from_slice(&[0u8; 89]);
    assert_eq!(PoolAccount::from_account_data(&data), Some(pool));
}

#[test]
fn global_config_account_from_data() {
    let mut recipients = [Address::zero(); 8];
    for (i, slot) in recipients.iter_mut().enumerate() {
        *slot = sample(10 + i as u8);
    }
    let config = GlobalConfigAccount::new(sample(1), 20, 5, 0b10101, recipients);
    let mut data = vec![3u8; 8];
    data.extend(
        borsh::to_vec(&(
            config.admin.to_bytes(),
            config.lp_fee_basis_points,
            config.protocol_fee_basis_points,
            config.disable_flags,
        ))
        .unwrap(),
    );
    for recipient in recipients.iter() {
        data.extend_from_slice(&recipient.to_bytes());
    }
    assert_eq!(data.len(), GlobalConfigAccount::DATA_LEN);
    assert_eq!(GlobalConfigAccount::from_account_data(&data), Some(config));
    assert_eq!(GlobalConfigAccount::from_account_data(&data[..312]), None);
    data.push(1);
    assert_eq!(GlobalConfigAccount::from_account_data(&data), Some(config));
    assert_eq!(GlobalConfigAccount::CREATE_POOL_FLAG, 0);
    assert_eq!(GlobalConfigAccount::DEPOSIT_FLAG, 1);
    assert_eq!(GlobalConfigAccount::WITHDRAW_FLAG, 2);
    assert_eq!(GlobalConfigAccount::BUY_FLAG, 3);
    assert_eq!(GlobalConfigAccount::SELL_FLAG, 4);
}
