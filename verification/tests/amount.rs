use chia_protocol::Bytes32;

use dig_did::{Coin, DidError, SingletonAmount};

fn coin_of(amount: u64) -> Coin {
    Coin::new(Bytes32::default(), Bytes32::default(), amount)
}

#[test]
fn odd_amounts_are_accepted_and_read_back_unchanged() {
    for amount in [1_u64, 3, 1_000_001, u64::MAX] {
        let proven = SingletonAmount::new(amount)
            .expect("an odd amount is a valid singleton amount")
            .get();
        assert_eq!(proven, amount);
    }
}

#[test]
fn even_amounts_are_refused_by_value() {
    for amount in [0_u64, 2, 1_000_000, u64::MAX - 1] {
        assert!(
            matches!(
                SingletonAmount::new(amount),
                Err(DidError::EvenSingletonAmount(reported)) if reported == amount
            ),
            "{amount} is even and must be refused, naming itself"
        );
    }
}

#[test]
fn from_funding_coin_reads_the_coins_amount() {
    assert_eq!(
        SingletonAmount::from_funding_coin(&coin_of(7))
            .expect("7 is odd")
            .get(),
        7
    );
    assert!(matches!(
        SingletonAmount::from_funding_coin(&coin_of(8)),
        Err(DidError::EvenSingletonAmount(8))
    ));
}

#[test]
fn consts_are_odd_and_would_pass_the_constructor() {
    assert_const_would_pass_the_constructor("minimal", SingletonAmount::minimal());
}

/// Re-validates a fixed amount through the public constructor.
fn assert_const_would_pass_the_constructor(name: &str, amount: SingletonAmount) {
    assert!(
        SingletonAmount::new(amount.get()).is_ok(),
        "{name} = {} bypasses new(), so it must itself be odd",
        amount.get()
    );
}

#[test]
fn amounts_order_by_their_value() {
    let one = SingletonAmount::minimal();
    let three = SingletonAmount::new(3).expect("3 is odd");
    assert!(one < three);
    assert_eq!(one.get(), 1);
    assert_eq!(three, SingletonAmount::new(3).expect("3 is odd"));
}
