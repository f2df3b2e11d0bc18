use autofishbot::shop::{parse_profile_embed, parse_shop_embed};
use autofishbot::types::EmbedField;

#[test]
fn test_parse_shop_embed_variations() {
    let title = "Fish Shop";

    let desc1 = "**Plastic Rod** - $500\n**Steel Rod** - $1,500";
    let items1 = parse_shop_embed(title, desc1, None);
    assert_eq!(items1.len(), 2, "Failed Variation 1");
    assert_eq!(items1[0].name, "Plastic Rod");
    assert_eq!(items1[0].price_milli, 500_000);
    assert_eq!(items1[1].name, "Steel Rod");
    assert_eq!(items1[1].price_milli, 1_500_000);

    let desc2 = "<:rod:123> **Plastic Rod** - $500\n<:rod:123> **Steel Rod** - $1,500";
    let items2 = parse_shop_embed(title, desc2, None);

    let desc3 = "**Plastic Rod** - **$500**";
    let items3 = parse_shop_embed(title, desc3, None);

    let desc4 = "**Plastic Rod**: $500";
    let items4 = parse_shop_embed(title, desc4, None);

    let desc6 = "1. **Plastic Rod** - $500";
    let items6 = parse_shop_embed(title, desc6, None);

    assert_eq!(items2.len(), 2, "Failed Variation 2");
    assert_eq!(items2[0].name, "Plastic Rod");
    assert_eq!(items2[0].price_milli, 500_000);
    assert_eq!(items2[1].name, "Steel Rod");
    assert_eq!(items2[1].price_milli, 1_500_000);

    assert_eq!(items3.len(), 1, "Failed Variation 3");
    assert_eq!(items3[0].name, "Plastic Rod");
    assert_eq!(items3[0].price_milli, 500_000);

    assert_eq!(items4.len(), 1, "Failed Variation 4");
    assert_eq!(items4[0].name, "Plastic Rod");
    assert_eq!(items4[0].price_milli, 500_000);

    assert_eq!(items6.len(), 1, "Failed Variation 6");
    assert_eq!(items6[0].name, "Plastic Rod");
    assert_eq!(items6[0].price_milli, 500_000);
}

#[test]
fn shop_fields_and_currency() {
    let fields = vec![
        EmbedField {
            name: "**Lava Rod**".to_string(),
            value: "Price: $1,000,000.50\nA hot rod\n +5% catch \n+2 luck".to_string(),
            inline: None,
        },
        EmbedField { name: "Free Thing".to_string(), value: "Costs nothing".to_string(), inline: None },
    ];
    let items = parse_shop_embed("Magma Shop", "**Ignored** - $5", Some(&fields));
    assert_eq!(items.len(), 1);
    assert_eq!(items[0].name, "Lava Rod");
    assert_eq!(items[0].price_milli, 1_000_000_500);
    assert_eq!(items[0].currency, "Magma");
    assert_eq!(items[0].description, "A hot rod\n +5% catch \n+2 luck");
    assert_eq!(items[0].stats.as_deref(), Some("+5% catch, +2 luck"));
    // No priced field: the description is read instead.
    let none_priced = vec![EmbedField { name: "X".to_string(), value: "nothing".to_string(), inline: None }];
    let items = parse_shop_embed("Fish Shop", "**Cod Bait** - $5", Some(&none_priced));
    assert_eq!(items.len(), 1);
    assert_eq!(items[0].currency, "Money");
    assert_eq!(items[0].description, "**Cod Bait** - $5");
}

#[test]
fn player_summary() {
    let s = parse_profile_embed(
        "Balance: **$3,548**\nLevel 21\nCurrent Biome: <:b:1> **Flatland**\nother **x**",
    );
    assert_eq!(s.balance, Some(3548));
    assert_eq!(s.level, Some(21));
    assert_eq!(s.biome.as_deref(), Some("Flatland"));
    let greedy = parse_profile_embed("Current Biome: **Old** now **Deep Sea**");
    assert_eq!(greedy.biome.as_deref(), Some("Deep Sea"));
    let none = parse_profile_embed("Level x, Balance: $5");
    assert_eq!(none.balance, None);
    assert_eq!(none.level, None);
    assert_eq!(none.biome, None);
    let big = parse_profile_embed("Level 99999999999");
    assert_eq!(big.level, None);
}
