use infinite_nft::avatar::TradeBadge;
use infinite_nft::avatar::make_avatar;
use infinite_nft::vending::InfiniteNft;
use infinite_nft::vending::ONE_TOKEN;

#[test]
fn an_avatar_record_keeps_its_fields() {
    let a = make_avatar("Cat", "OCI Cat", "https://example.invalid/cat.gif", 9);
    assert_eq!(a.name, "Cat");
    assert_eq!(a.collection_type, "OCI Cat");
    assert_eq!(a.key_image_url, "https://example.invalid/cat.gif");
    assert_eq!(a.nft_id, 9);
}

#[test]
fn a_trade_badge_records_its_epoch() {
    let badge = TradeBadge { minted_on: 42 };
    assert_eq!(badge.minted_on, 42);
}

#[test]
fn instantiation_fills_the_catalog() {
    let c = InfiniteNft::instantiate_infinite();
    assert_eq!(c.avatar_count(), 7);
    assert_eq!(c.price(), ONE_TOKEN);
    assert_eq!(c.collected_xrd, 0);
    assert_eq!(c.nft_id_counter, 0);
    assert!(c.receiver.is_empty());
    let names = ["Cat", "Dog", "Gnome", "Fractal", "Penguin 1", "Penguin 2", "Robot"];
    let collections = [
        "OCI Cat",
        "Doge",
        "Gnomes",
        "Radical Fractals",
        "Pengus",
        "Pengus",
        "Rad Robo",
    ];
    let gifs = ["8", "9", "10", "4", "5", "6", "7"];
    for i in 0..7usize {
        let e = &c.avatar_vault[i];
        let key = (i + 1) as u64;
        assert_eq!(e.key, key);
        assert_eq!(e.data.nft_id, key);
        assert_eq!(e.data.name, names[i]);
        assert_eq!(e.data.collection_type, collections[i]);
        let url = format!(
            "https://radixwalletimages.s3.us-east-2.amazonaws.com/gifs/{}.gif",
            gifs[i]
        );
        assert_eq!(e.data.key_image_url, url);
    }
}

#[test]
fn every_catalog_key_is_stocked() {
    let c = InfiniteNft::instantiate_infinite();
    for key in 1..=7u64 {
        assert!(c.has_avatar(key));
    }
    assert!(!c.has_avatar(0));
    assert!(!c.has_avatar(8));
}

#[test]
fn buying_with_exact_payment_leaves_no_change() {
    let mut c = InfiniteNft::instantiate_infinite();
    let (avatar, change) = c.buy_avatar(ONE_TOKEN, 3);
    assert_eq!(avatar.name, "Gnome");
    assert_eq!(avatar.collection_type, "Gnomes");
    assert_eq!(avatar.nft_id, 3);
    assert_eq!(change, 0);
    assert_eq!(c.collected_xrd, ONE_TOKEN);
    assert_eq!(c.avatar_count(), 6);
    assert!(!c.has_avatar(3));
}

#[test]
fn excess_payment_comes_back_as_change() {
    let mut c = InfiniteNft::instantiate_infinite();
    let payment = 5 * ONE_TOKEN / 2;
    let (avatar, change) = c.buy_avatar(payment, 7);
    assert_eq!(avatar.name, "Robot");
    assert_eq!(change, payment - ONE_TOKEN);
    assert_eq!(c.collected_xrd, ONE_TOKEN);
}

#[test]
fn a_sale_leaves_the_other_keys_stocked() {
    let mut c = InfiniteNft::instantiate_infinite();
    let _ = c.buy_avatar(ONE_TOKEN, 5);
    assert!(!c.has_avatar(5));
    for key in [1u64, 2, 3, 4, 6, 7] {
        assert!(c.has_avatar(key));
    }
}

#[test]
fn selling_out_drains_the_vault() {
    let mut c = InfiniteNft::instantiate_infinite();
    for key in 1..=7u64 {
        let (avatar, change) = c.buy_avatar(ONE_TOKEN, key);
        assert_eq!(avatar.nft_id, key);
        assert_eq!(change, 0);
    }
    assert_eq!(c.avatar_count(), 0);
    assert_eq!(c.collected_xrd, 7 * ONE_TOKEN);
    for key in 1..=7u64 {
        assert!(!c.has_avatar(key));
    }
}

#[test]
fn keys_sell_in_any_order() {
    let mut c = InfiniteNft::instantiate_infinite();
    let (first, _) = c.buy_avatar(ONE_TOKEN, 6);
    assert_eq!(first.name, "Penguin 2");
    let (second, _) = c.buy_avatar(ONE_TOKEN, 1);
    assert_eq!(second.name, "Cat");
    let (third, _) = c.buy_avatar(ONE_TOKEN, 4);
    assert_eq!(third.name, "Fractal");
    assert_eq!(c.avatar_count(), 4);
    assert_eq!(c.collected_xrd, 3 * ONE_TOKEN);
}
