//! The built-in base16 colour schemes, as data and as their model.
use vstd::prelude::*;

use crate::sort::{lemma_text_le_refl, text_le};
use crate::terminal::base16::{spec_scheme, Base16Scheme, Base16View};

verus! {

/// Each entry of the built-in table: slug, name and the sixteen colours.
pub open spec fn spec_builtin_entries() -> Seq<(Seq<char>, Seq<char>, Seq<u32>)> {
    table_part_0() + table_part_1() + table_part_2() + table_part_3() + table_part_4() + table_part_5() + table_part_6() + table_part_7()
}

/// The built-in schemes.
pub open spec fn spec_builtin() -> Seq<Base16View> {
    spec_builtin_entries().map_values(|e: (Seq<char>, Seq<char>, Seq<u32>)| spec_scheme(e.0, e.1, e.2))
}

/// Entries 1 to 16 of the built-in table.
#[verifier::opaque]
pub open spec fn table_part_0() -> Seq<(Seq<char>, Seq<char>, Seq<u32>)> {
    seq![
        ("3024"@, "3024"@, seq![0x090300u32, 0x3a3432u32, 0x4a4543u32, 0x5c5855u32, 0x807d7cu32, 0xa5a2a2u32, 0xd6d5d4u32, 0xf7f7f7u32, 0xdb2d20u32, 0xe8bbd0u32, 0xfded02u32, 0x01a252u32, 0xb5e4f4u32, 0x01a0e4u32, 0xa16a94u32, 0xcdab53u32]),
        ("apathy"@, "Apathy"@, seq![0x031A16u32, 0x0B342Du32, 0x184E45u32, 0x2B685Eu32, 0x5F9C92u32, 0x81B5ACu32, 0xA7CEC8u32, 0xD2E7E4u32, 0x3E9688u32, 0x3E7996u32, 0x3E4C96u32, 0x883E96u32, 0x963E4Cu32, 0x96883Eu32, 0x4C963Eu32, 0x3E965Bu32]),
        ("ashes"@, "Ashes"@, seq![0x1C2023u32, 0x393F45u32, 0x565E65u32, 0x747C84u32, 0xADB3BAu32, 0xC7CCD1u32, 0xDFE2E5u32, 0xF3F4F5u32, 0xC7AE95u32, 0xC7C795u32, 0xAEC795u32, 0x95C7AEu32, 0x95AEC7u32, 0xAE95C7u32, 0xC795AEu32, 0xC79595u32]),
        ("atelier-cave-light"@, "Atelier Cave Light"@, seq![0xefecf4u32, 0xe2dfe7u32, 0x8b8792u32, 0x7e7887u32, 0x655f6du32, 0x585260u32, 0x26232au32, 0x19171cu32, 0xbe4678u32, 0xaa573cu32, 0xa06e3bu32, 0x2a9292u32, 0x398bc6u32, 0x576ddbu32, 0x955ae7u32, 0xbf40bfu32]),
        ("atelier-cave"@, "Atelier Cave"@, seq![0x19171cu32, 0x26232au32, 0x585260u32, 0x655f6du32, 0x7e7887u32, 0x8b8792u32, 0xe2dfe7u32, 0xefecf4u32, 0xbe4678u32, 0xaa573cu32, 0xa06e3bu32, 0x2a9292u32, 0x398bc6u32, 0x576ddbu32, 0x955ae7u32, 0xbf40bfu32]),
        ("atelier-dune-light"@, "Atelier Dune Light"@, seq![0xfefbecu32, 0xe8e4cfu32, 0xa6a28cu32, 0x999580u32, 0x7d7a68u32, 0x6e6b5eu32, 0x292824u32, 0x20201du32, 0xd73737u32, 0xb65611u32, 0xae9513u32, 0x60ac39u32, 0x1fad83u32, 0x6684e1u32, 0xb854d4u32, 0xd43552u32]),
        ("atelier-dune"@, "Atelier Dune"@, seq![0x20201du32, 0x292824u32, 0x6e6b5eu32, 0x7d7a68u32, 0x999580u32, 0xa6a28cu32, 0xe8e4cfu32, 0xfefbecu32, 0xd73737u32, 0xb65611u32, 0xae9513u32, 0x60ac39u32, 0x1fad83u32, 0x6684e1u32, 0xb854d4u32, 0xd43552u32]),
        ("atelier-estuary-light"@, "Atelier Estuary Light"@, seq![0xf4f3ecu32, 0xe7e6dfu32, 0x929181u32, 0x878573u32, 0x6c6b5au32, 0x5f5e4eu32, 0x302f27u32, 0x22221bu32, 0xba6236u32, 0xae7313u32, 0xa5980du32, 0x7d9726u32, 0x5b9d48u32, 0x36a166u32, 0x5f9182u32, 0x9d6c7cu32]),
        ("atelier-estuary"@, "Atelier Estuary"@, seq![0x22221bu32, 0x302f27u32, 0x5f5e4eu32, 0x6c6b5au32, 0x878573u32, 0x929181u32, 0xe7e6dfu32, 0xf4f3ecu32, 0xba6236u32, 0xae7313u32, 0xa5980du32, 0x7d9726u32, 0x5b9d48u32, 0x36a166u32, 0x5f9182u32, 0x9d6c7cu32]),
        ("atelier-forest-light"@, "Atelier Forest Light"@, seq![0xf1efeeu32, 0xe6e2e0u32, 0xa8a19fu32, 0x9c9491u32, 0x766e6bu32, 0x68615eu32, 0x2c2421u32, 0x1b1918u32, 0xf22c40u32, 0xdf5320u32, 0xc38418u32, 0x7b9726u32, 0x3d97b8u32, 0x407ee7u32, 0x6666eau32, 0xc33ff3u32]),
        ("atelier-forest"@, "Atelier Forest"@, seq![0x1b1918u32, 0x2c2421u32, 0x68615eu32, 0x766e6bu32, 0x9c9491u32, 0xa8a19fu32, 0xe6e2e0u32, 0xf1efeeu32, 0xf22c40u32, 0xdf5320u32, 0xc38418u32, 0x7b9726u32, 0x3d97b8u32, 0x407ee7u32, 0x6666eau32, 0xc33ff3u32]),
        ("atelier-heath-light"@, "Atelier Heath Light"@, seq![0xf7f3f7u32, 0xd8cad8u32, 0xab9babu32, 0x9e8f9eu32, 0x776977u32, 0x695d69u32, 0x292329u32, 0x1b181bu32, 0xca402bu32, 0xa65926u32, 0xbb8a35u32, 0x918b3bu32, 0x159393u32, 0x516aecu32, 0x7b59c0u32, 0xcc33ccu32]),
        ("atelier-heath"@, "Atelier Heath"@, seq![0x1b181bu32, 0x292329u32, 0x695d69u32, 0x776977u32, 0x9e8f9eu32, 0xab9babu32, 0xd8cad8u32, 0xf7f3f7u32, 0xca402bu32, 0xa65926u32, 0xbb8a35u32, 0x918b3bu32, 0x159393u32, 0x516aecu32, 0x7b59c0u32, 0xcc33ccu32]),
        ("atelier-lakeside-light"@, "Atelier Lakeside Light"@, seq![0xebf8ffu32, 0xc1e4f6u32, 0x7ea2b4u32, 0x7195a8u32, 0x5a7b8cu32, 0x516d7bu32, 0x1f292eu32, 0x161b1du32, 0xd22d72u32, 0x935c25u32, 0x8a8a0fu32, 0x568c3bu32, 0x2d8f6fu32, 0x257fadu32, 0x6b6bb8u32, 0xb72dd2u32]),
        ("atelier-lakeside"@, "Atelier Lakeside"@, seq![0x161b1du32, 0x1f292eu32, 0x516d7bu32, 0x5a7b8cu32, 0x7195a8u32, 0x7ea2b4u32, 0xc1e4f6u32, 0xebf8ffu32, 0xd22d72u32, 0x935c25u32, 0x8a8a0fu32, 0x568c3bu32, 0x2d8f6fu32, 0x257fadu32, 0x6b6bb8u32, 0xb72dd2u32]),
        ("atelier-plateau-light"@, "Atelier Plateau Light"@, seq![0xf4ececu32, 0xe7dfdfu32, 0x8a8585u32, 0x7e7777u32, 0x655d5du32, 0x585050u32, 0x292424u32, 0x1b1818u32, 0xca4949u32, 0xb45a3cu32, 0xa06e3bu32, 0x4b8b8bu32, 0x5485b6u32, 0x7272cau32, 0x8464c4u32, 0xbd5187u32]),
    ]
}

/// Entries 17 to 32 of the built-in table.
#[verifier::opaque]
pub open spec fn table_part_1() -> Seq<(Seq<char>, Seq<char>, Seq<u32>)> {
    seq![
        ("atelier-plateau"@, "Atelier Plateau"@, seq![0x1b1818u32, 0x292424u32, 0x585050u32, 0x655d5du32, 0x7e7777u32, 0x8a8585u32, 0xe7dfdfu32, 0xf4ececu32, 0xca4949u32, 0xb45a3cu32, 0xa06e3bu32, 0x4b8b8bu32, 0x5485b6u32, 0x7272cau32, 0x8464c4u32, 0xbd5187u32]),
        ("atelier-savanna-light"@, "Atelier Savanna Light"@, seq![0xecf4eeu32, 0xdfe7e2u32, 0x87928au32, 0x78877du32, 0x5f6d64u32, 0x526057u32, 0x232a25u32, 0x171c19u32, 0xb16139u32, 0x9f713cu32, 0xa07e3bu32, 0x489963u32, 0x1c9aa0u32, 0x478c90u32, 0x55859bu32, 0x867469u32]),
        ("atelier-savanna"@, "Atelier Savanna"@, seq![0x171c19u32, 0x232a25u32, 0x526057u32, 0x5f6d64u32, 0x78877du32, 0x87928au32, 0xdfe7e2u32, 0xecf4eeu32, 0xb16139u32, 0x9f713cu32, 0xa07e3bu32, 0x489963u32, 0x1c9aa0u32, 0x478c90u32, 0x55859bu32, 0x867469u32]),
        ("atelier-seaside-light"@, "Atelier Seaside Light"@, seq![0xf4fbf4u32, 0xcfe8cfu32, 0x8ca68cu32, 0x809980u32, 0x687d68u32, 0x5e6e5eu32, 0x242924u32, 0x131513u32, 0xe6193cu32, 0x87711du32, 0x98981bu32, 0x29a329u32, 0x1999b3u32, 0x3d62f5u32, 0xad2beeu32, 0xe619c3u32]),
        ("atelier-seaside"@, "Atelier Seaside"@, seq![0x131513u32, 0x242924u32, 0x5e6e5eu32, 0x687d68u32, 0x809980u32, 0x8ca68cu32, 0xcfe8cfu32, 0xf4fbf4u32, 0xe6193cu32, 0x87711du32, 0x98981bu32, 0x29a329u32, 0x1999b3u32, 0x3d62f5u32, 0xad2beeu32, 0xe619c3u32]),
        ("atelier-sulphurpool-light"@, "Atelier Sulphurpool Light"@, seq![0xf5f7ffu32, 0xdfe2f1u32, 0x979db4u32, 0x898ea4u32, 0x6b7394u32, 0x5e6687u32, 0x293256u32, 0x202746u32, 0xc94922u32, 0xc76b29u32, 0xc08b30u32, 0xac9739u32, 0x22a2c9u32, 0x3d8fd1u32, 0x6679ccu32, 0x9c637au32]),
        ("atelier-sulphurpool"@, "Atelier Sulphurpool"@, seq![0x202746u32, 0x293256u32, 0x5e6687u32, 0x6b7394u32, 0x898ea4u32, 0x979db4u32, 0xdfe2f1u32, 0xf5f7ffu32, 0xc94922u32, 0xc76b29u32, 0xc08b30u32, 0xac9739u32, 0x22a2c9u32, 0x3d8fd1u32, 0x6679ccu32, 0x9c637au32]),
        ("atlas"@, "Atlas"@, seq![0x002635u32, 0x00384du32, 0x517F8Du32, 0x6C8B91u32, 0x869696u32, 0xa1a19au32, 0xe6e6dcu32, 0xfafaf8u32, 0xff5a67u32, 0xf08e48u32, 0xffcc1bu32, 0x7fc06eu32, 0x14747eu32, 0x5dd7b9u32, 0x9a70a4u32, 0xc43060u32]),
        ("bespin"@, "Bespin"@, seq![0x28211cu32, 0x36312eu32, 0x5e5d5cu32, 0x666666u32, 0x797977u32, 0x8a8986u32, 0x9d9b97u32, 0xbaae9eu32, 0xcf6a4cu32, 0xcf7d34u32, 0xf9ee98u32, 0x54be0du32, 0xafc4dbu32, 0x5ea6eau32, 0x9b859du32, 0x937121u32]),
        ("black-metal-bathory"@, "Black Metal (Bathory)"@, seq![0x000000u32, 0x121212u32, 0x222222u32, 0x333333u32, 0x999999u32, 0xc1c1c1u32, 0x999999u32, 0xc1c1c1u32, 0x5f8787u32, 0xaaaaaau32, 0xe78a53u32, 0xfbcb97u32, 0xaaaaaau32, 0x888888u32, 0x999999u32, 0x444444u32]),
        ("black-metal-burzum"@, "Black Metal (Burzum)"@, seq![0x000000u32, 0x121212u32, 0x222222u32, 0x333333u32, 0x999999u32, 0xc1c1c1u32, 0x999999u32, 0xc1c1c1u32, 0x5f8787u32, 0xaaaaaau32, 0x99bbaau32, 0xddeeccu32, 0xaaaaaau32, 0x888888u32, 0x999999u32, 0x444444u32]),
        ("black-metal-dark-funeral"@, "Black Metal (Dark Funeral)"@, seq![0x000000u32, 0x121212u32, 0x222222u32, 0x333333u32, 0x999999u32, 0xc1c1c1u32, 0x999999u32, 0xc1c1c1u32, 0x5f8787u32, 0xaaaaaau32, 0x5f81a5u32, 0xd0dfeeu32, 0xaaaaaau32, 0x888888u32, 0x999999u32, 0x444444u32]),
        ("black-metal-gorgoroth"@, "Black Metal (Gorgoroth)"@, seq![0x000000u32, 0x121212u32, 0x222222u32, 0x333333u32, 0x999999u32, 0xc1c1c1u32, 0x999999u32, 0xc1c1c1u32, 0x5f8787u32, 0xaaaaaau32, 0x8c7f70u32, 0x9b8d7fu32, 0xaaaaaau32, 0x888888u32, 0x999999u32, 0x444444u32]),
        ("black-metal-immortal"@, "Black Metal (Immortal)"@, seq![0x000000u32, 0x121212u32, 0x222222u32, 0x333333u32, 0x999999u32, 0xc1c1c1u32, 0x999999u32, 0xc1c1c1u32, 0x5f8787u32, 0xaaaaaau32, 0x556677u32, 0x7799bbu32, 0xaaaaaau32, 0x888888u32, 0x999999u32, 0x444444u32]),
        ("black-metal-khold"@, "Black Metal (Khold)"@, seq![0x000000u32, 0x121212u32, 0x222222u32, 0x333333u32, 0x999999u32, 0xc1c1c1u32, 0x999999u32, 0xc1c1c1u32, 0x5f8787u32, 0xaaaaaau32, 0x974b46u32, 0xeceee3u32, 0xaaaaaau32, 0x888888u32, 0x999999u32, 0x444444u32]),
        ("black-metal-marduk"@, "Black Metal (Marduk)"@, seq![0x000000u32, 0x121212u32, 0x222222u32, 0x333333u32, 0x999999u32, 0xc1c1c1u32, 0x999999u32, 0xc1c1c1u32, 0x5f8787u32, 0xaaaaaau32, 0x626b67u32, 0xa5aaa7u32, 0xaaaaaau32, 0x888888u32, 0x999999u32, 0x444444u32]),
    ]
}

/// Entries 33 to 48 of the built-in table.
#[verifier::opaque]
pub open spec fn table_part_2() -> Seq<(Seq<char>, Seq<char>, Seq<u32>)> {
    seq![
        ("black-metal-mayhem"@, "Black Metal (Mayhem)"@, seq![0x000000u32, 0x121212u32, 0x222222u32, 0x333333u32, 0x999999u32, 0xc1c1c1u32, 0x999999u32, 0xc1c1c1u32, 0x5f8787u32, 0xaaaaaau32, 0xeecc6cu32, 0xf3ecd4u32, 0xaaaaaau32, 0x888888u32, 0x999999u32, 0x444444u32]),
        ("black-metal-nile"@, "Black Metal (Nile)"@, seq![0x000000u32, 0x121212u32, 0x222222u32, 0x333333u32, 0x999999u32, 0xc1c1c1u32, 0x999999u32, 0xc1c1c1u32, 0x5f8787u32, 0xaaaaaau32, 0x777755u32, 0xaa9988u32, 0xaaaaaau32, 0x888888u32, 0x999999u32, 0x444444u32]),
        ("black-metal-venom"@, "Black Metal (Venom)"@, seq![0x000000u32, 0x121212u32, 0x222222u32, 0x333333u32, 0x999999u32, 0xc1c1c1u32, 0x999999u32, 0xc1c1c1u32, 0x5f8787u32, 0xaaaaaau32, 0x79241fu32, 0xf8f7f2u32, 0xaaaaaau32, 0x888888u32, 0x999999u32, 0x444444u32]),
        ("black-metal"@, "Black Metal"@, seq![0x000000u32, 0x121212u32, 0x222222u32, 0x333333u32, 0x999999u32, 0xc1c1c1u32, 0x999999u32, 0xc1c1c1u32, 0x5f8787u32, 0xaaaaaau32, 0xa06666u32, 0xdd9999u32, 0xaaaaaau32, 0x888888u32, 0x999999u32, 0x444444u32]),
        ("brewer"@, "Brewer"@, seq![0x0c0d0eu32, 0x2e2f30u32, 0x515253u32, 0x737475u32, 0x959697u32, 0xb7b8b9u32, 0xdadbdcu32, 0xfcfdfeu32, 0xe31a1cu32, 0xe6550du32, 0xdca060u32, 0x31a354u32, 0x80b1d3u32, 0x3182bdu32, 0x756bb1u32, 0xb15928u32]),
        ("bright"@, "Bright"@, seq![0x000000u32, 0x303030u32, 0x505050u32, 0xb0b0b0u32, 0xd0d0d0u32, 0xe0e0e0u32, 0xf5f5f5u32, 0xffffffu32, 0xfb0120u32, 0xfc6d24u32, 0xfda331u32, 0xa1c659u32, 0x76c7b7u32, 0x6fb3d2u32, 0xd381c3u32, 0xbe643cu32]),
        ("brogrammer"@, "Brogrammer"@, seq![0x1f1f1fu32, 0xf81118u32, 0x2dc55eu32, 0xecba0fu32, 0x2a84d2u32, 0x4e5ab7u32, 0x1081d6u32, 0xd6dbe5u32, 0xd6dbe5u32, 0xde352eu32, 0x1dd361u32, 0xf3bd09u32, 0x1081d6u32, 0x5350b9u32, 0x0f7ddbu32, 0xffffffu32]),
        ("brushtrees-dark"@, "Brush Trees Dark"@, seq![0x485867u32, 0x5A6D7Au32, 0x6D828Eu32, 0x8299A1u32, 0x98AFB5u32, 0xB0C5C8u32, 0xC9DBDCu32, 0xE3EFEFu32, 0xb38686u32, 0xd8bba2u32, 0xaab386u32, 0x87b386u32, 0x86b3b3u32, 0x868cb3u32, 0xb386b2u32, 0xb39f9fu32]),
        ("brushtrees"@, "Brush Trees"@, seq![0xE3EFEFu32, 0xC9DBDCu32, 0xB0C5C8u32, 0x98AFB5u32, 0x8299A1u32, 0x6D828Eu32, 0x5A6D7Au32, 0x485867u32, 0xb38686u32, 0xd8bba2u32, 0xaab386u32, 0x87b386u32, 0x86b3b3u32, 0x868cb3u32, 0xb386b2u32, 0xb39f9fu32]),
        ("chalk"@, "Chalk"@, seq![0x151515u32, 0x202020u32, 0x303030u32, 0x505050u32, 0xb0b0b0u32, 0xd0d0d0u32, 0xe0e0e0u32, 0xf5f5f5u32, 0xfb9fb1u32, 0xeda987u32, 0xddb26fu32, 0xacc267u32, 0x12cfc0u32, 0x6fc2efu32, 0xe1a3eeu32, 0xdeaf8fu32]),
        ("circus"@, "Circus"@, seq![0x191919u32, 0x202020u32, 0x303030u32, 0x5f5a60u32, 0x505050u32, 0xa7a7a7u32, 0x808080u32, 0xffffffu32, 0xdc657du32, 0x4bb1a7u32, 0xc3ba63u32, 0x84b97cu32, 0x4bb1a7u32, 0x639ee4u32, 0xb888e2u32, 0xb888e2u32]),
        ("classic-dark"@, "Classic Dark"@, seq![0x151515u32, 0x202020u32, 0x303030u32, 0x505050u32, 0xB0B0B0u32, 0xD0D0D0u32, 0xE0E0E0u32, 0xF5F5F5u32, 0xAC4142u32, 0xD28445u32, 0xF4BF75u32, 0x90A959u32, 0x75B5AAu32, 0x6A9FB5u32, 0xAA759Fu32, 0x8F5536u32]),
        ("classic-light"@, "Classic Light"@, seq![0xF5F5F5u32, 0xE0E0E0u32, 0xD0D0D0u32, 0xB0B0B0u32, 0x505050u32, 0x303030u32, 0x202020u32, 0x151515u32, 0xAC4142u32, 0xD28445u32, 0xF4BF75u32, 0x90A959u32, 0x75B5AAu32, 0x6A9FB5u32, 0xAA759Fu32, 0x8F5536u32]),
        ("codeschool"@, "Codeschool"@, seq![0x232c31u32, 0x1c3657u32, 0x2a343au32, 0x3f4944u32, 0x84898cu32, 0x9ea7a6u32, 0xa7cfa3u32, 0xb5d8f6u32, 0x2a5491u32, 0x43820du32, 0xa03b1eu32, 0x237986u32, 0xb02f30u32, 0x484d79u32, 0xc59820u32, 0xc98344u32]),
        ("cupcake"@, "Cupcake"@, seq![0xfbf1f2u32, 0xf2f1f4u32, 0xd8d5ddu32, 0xbfb9c6u32, 0xa59dafu32, 0x8b8198u32, 0x72677Eu32, 0x585062u32, 0xD57E85u32, 0xEBB790u32, 0xDCB16Cu32, 0xA3B367u32, 0x69A9A7u32, 0x7297B9u32, 0xBB99B4u32, 0xBAA58Cu32]),
        ("cupertino"@, "Cupertino"@, seq![0xffffffu32, 0xc0c0c0u32, 0xc0c0c0u32, 0x808080u32, 0x808080u32, 0x404040u32, 0x404040u32, 0x5e5e5eu32, 0xc41a15u32, 0xeb8500u32, 0x826b28u32, 0x007400u32, 0x318495u32, 0x0000ffu32, 0xa90d91u32, 0x826b28u32]),
    ]
}

/// Entries 49 to 64 of the built-in table.
#[verifier::opaque]
pub open spec fn table_part_3() -> Seq<(Seq<char>, Seq<char>, Seq<u32>)> {
    seq![
        ("darktooth"@, "Darktooth"@, seq![0x1D2021u32, 0x32302Fu32, 0x504945u32, 0x665C54u32, 0x928374u32, 0xA89984u32, 0xD5C4A1u32, 0xFDF4C1u32, 0xFB543Fu32, 0xFE8625u32, 0xFAC03Bu32, 0x95C085u32, 0x8BA59Bu32, 0x0D6678u32, 0x8F4673u32, 0xA87322u32]),
        ("default-dark"@, "Default Dark"@, seq![0x181818u32, 0x282828u32, 0x383838u32, 0x585858u32, 0xb8b8b8u32, 0xd8d8d8u32, 0xe8e8e8u32, 0xf8f8f8u32, 0xab4642u32, 0xdc9656u32, 0xf7ca88u32, 0xa1b56cu32, 0x86c1b9u32, 0x7cafc2u32, 0xba8bafu32, 0xa16946u32]),
        ("default-light"@, "Default Light"@, seq![0xf8f8f8u32, 0xe8e8e8u32, 0xd8d8d8u32, 0xb8b8b8u32, 0x585858u32, 0x383838u32, 0x282828u32, 0x181818u32, 0xab4642u32, 0xdc9656u32, 0xf7ca88u32, 0xa1b56cu32, 0x86c1b9u32, 0x7cafc2u32, 0xba8bafu32, 0xa16946u32]),
        ("dracula"@, "Dracula"@, seq![0x282936u32, 0x3a3c4eu32, 0x4d4f68u32, 0x626483u32, 0x62d6e8u32, 0xe9e9f4u32, 0xf1f2f8u32, 0xf7f7fbu32, 0xea51b2u32, 0xb45bcfu32, 0x00f769u32, 0xebff87u32, 0xa1efe4u32, 0x62d6e8u32, 0xb45bcfu32, 0x00f769u32]),
        ("eighties"@, "Eighties"@, seq![0x2d2d2du32, 0x393939u32, 0x515151u32, 0x747369u32, 0xa09f93u32, 0xd3d0c8u32, 0xe8e6dfu32, 0xf2f0ecu32, 0xf2777au32, 0xf99157u32, 0xffcc66u32, 0x99cc99u32, 0x66ccccu32, 0x6699ccu32, 0xcc99ccu32, 0xd27b53u32]),
        ("embers"@, "Embers"@, seq![0x16130Fu32, 0x2C2620u32, 0x433B32u32, 0x5A5047u32, 0x8A8075u32, 0xA39A90u32, 0xBEB6AEu32, 0xDBD6D1u32, 0x826D57u32, 0x828257u32, 0x6D8257u32, 0x57826Du32, 0x576D82u32, 0x6D5782u32, 0x82576Du32, 0x825757u32]),
        ("flat"@, "Flat"@, seq![0x2C3E50u32, 0x34495Eu32, 0x7F8C8Du32, 0x95A5A6u32, 0xBDC3C7u32, 0xe0e0e0u32, 0xf5f5f5u32, 0xECF0F1u32, 0xE74C3Cu32, 0xE67E22u32, 0xF1C40Fu32, 0x2ECC71u32, 0x1ABC9Cu32, 0x3498DBu32, 0x9B59B6u32, 0xbe643cu32]),
        ("fruit-soda"@, "Fruit Soda"@, seq![0xf1ecf1u32, 0xe0dee0u32, 0xd8d5d5u32, 0xb5b4b6u32, 0x979598u32, 0x515151u32, 0x474545u32, 0x2d2c2cu32, 0xfe3e31u32, 0xfe6d08u32, 0xf7e203u32, 0x47f74cu32, 0x0f9cfdu32, 0x2931dfu32, 0x611fceu32, 0xb16f40u32]),
        ("github"@, "Github"@, seq![0xffffffu32, 0xf5f5f5u32, 0xc8c8fau32, 0x969896u32, 0xe8e8e8u32, 0x333333u32, 0xffffffu32, 0xffffffu32, 0xed6a43u32, 0x0086b3u32, 0x795da3u32, 0x183691u32, 0x183691u32, 0x795da3u32, 0xa71d5du32, 0x333333u32]),
        ("google-dark"@, "Google Dark"@, seq![0x1d1f21u32, 0x282a2eu32, 0x373b41u32, 0x969896u32, 0xb4b7b4u32, 0xc5c8c6u32, 0xe0e0e0u32, 0xffffffu32, 0xCC342Bu32, 0xF96A38u32, 0xFBA922u32, 0x198844u32, 0x3971EDu32, 0x3971EDu32, 0xA36AC7u32, 0x3971EDu32]),
        ("google-light"@, "Google Light"@, seq![0xffffffu32, 0xe0e0e0u32, 0xc5c8c6u32, 0xb4b7b4u32, 0x969896u32, 0x373b41u32, 0x282a2eu32, 0x1d1f21u32, 0xCC342Bu32, 0xF96A38u32, 0xFBA922u32, 0x198844u32, 0x3971EDu32, 0x3971EDu32, 0xA36AC7u32, 0x3971EDu32]),
        ("grayscale-dark"@, "Grayscale Dark"@, seq![0x101010u32, 0x252525u32, 0x464646u32, 0x525252u32, 0xabababu32, 0xb9b9b9u32, 0xe3e3e3u32, 0xf7f7f7u32, 0x7c7c7cu32, 0x999999u32, 0xa0a0a0u32, 0x8e8e8eu32, 0x868686u32, 0x686868u32, 0x747474u32, 0x5e5e5eu32]),
        ("grayscale-light"@, "Grayscale Light"@, seq![0xf7f7f7u32, 0xe3e3e3u32, 0xb9b9b9u32, 0xabababu32, 0x525252u32, 0x464646u32, 0x252525u32, 0x101010u32, 0x7c7c7cu32, 0x999999u32, 0xa0a0a0u32, 0x8e8e8eu32, 0x868686u32, 0x686868u32, 0x747474u32, 0x5e5e5eu32]),
        ("greenscreen"@, "Green Screen"@, seq![0x001100u32, 0x003300u32, 0x005500u32, 0x007700u32, 0x009900u32, 0x00bb00u32, 0x00dd00u32, 0x00ff00u32, 0x007700u32, 0x009900u32, 0x007700u32, 0x00bb00u32, 0x005500u32, 0x009900u32, 0x00bb00u32, 0x005500u32]),
        ("gruvbox-dark-hard"@, "Gruvbox dark, hard"@, seq![0x1d2021u32, 0x3c3836u32, 0x504945u32, 0x665c54u32, 0xbdae93u32, 0xd5c4a1u32, 0xebdbb2u32, 0xfbf1c7u32, 0xfb4934u32, 0xfe8019u32, 0xfabd2fu32, 0xb8bb26u32, 0x8ec07cu32, 0x83a598u32, 0xd3869bu32, 0xd65d0eu32]),
        ("gruvbox-dark-medium"@, "Gruvbox dark, medium"@, seq![0x282828u32, 0x3c3836u32, 0x504945u32, 0x665c54u32, 0xbdae93u32, 0xd5c4a1u32, 0xebdbb2u32, 0xfbf1c7u32, 0xfb4934u32, 0xfe8019u32, 0xfabd2fu32, 0xb8bb26u32, 0x8ec07cu32, 0x83a598u32, 0xd3869bu32, 0xd65d0eu32]),
    ]
}

/// Entries 65 to 80 of the built-in table.
#[verifier::opaque]
pub open spec fn table_part_4() -> Seq<(Seq<char>, Seq<char>, Seq<u32>)> {
    seq![
        ("gruvbox-dark-pale"@, "Gruvbox dark, pale"@, seq![0x262626u32, 0x3a3a3au32, 0x4e4e4eu32, 0x8a8a8au32, 0x949494u32, 0xdab997u32, 0xd5c4a1u32, 0xebdbb2u32, 0xd75f5fu32, 0xff8700u32, 0xffaf00u32, 0xafaf00u32, 0x85ad85u32, 0x83adadu32, 0xd485adu32, 0xd65d0eu32]),
        ("gruvbox-dark-soft"@, "Gruvbox dark, soft"@, seq![0x32302fu32, 0x3c3836u32, 0x504945u32, 0x665c54u32, 0xbdae93u32, 0xd5c4a1u32, 0xebdbb2u32, 0xfbf1c7u32, 0xfb4934u32, 0xfe8019u32, 0xfabd2fu32, 0xb8bb26u32, 0x8ec07cu32, 0x83a598u32, 0xd3869bu32, 0xd65d0eu32]),
        ("gruvbox-light-hard"@, "Gruvbox light, hard"@, seq![0xf9f5d7u32, 0xebdbb2u32, 0xd5c4a1u32, 0xbdae93u32, 0x665c54u32, 0x504945u32, 0x3c3836u32, 0x282828u32, 0x9d0006u32, 0xaf3a03u32, 0xb57614u32, 0x79740eu32, 0x427b58u32, 0x076678u32, 0x8f3f71u32, 0xd65d0eu32]),
        ("gruvbox-light-medium"@, "Gruvbox light, medium"@, seq![0xfbf1c7u32, 0xebdbb2u32, 0xd5c4a1u32, 0xbdae93u32, 0x665c54u32, 0x504945u32, 0x3c3836u32, 0x282828u32, 0x9d0006u32, 0xaf3a03u32, 0xb57614u32, 0x79740eu32, 0x427b58u32, 0x076678u32, 0x8f3f71u32, 0xd65d0eu32]),
        ("gruvbox-light-soft"@, "Gruvbox light, soft"@, seq![0xf2e5bcu32, 0xebdbb2u32, 0xd5c4a1u32, 0xbdae93u32, 0x665c54u32, 0x504945u32, 0x3c3836u32, 0x282828u32, 0x9d0006u32, 0xaf3a03u32, 0xb57614u32, 0x79740eu32, 0x427b58u32, 0x076678u32, 0x8f3f71u32, 0xd65d0eu32]),
        ("harmonic-dark"@, "Harmonic16 Dark"@, seq![0x0b1c2cu32, 0x223b54u32, 0x405c79u32, 0x627e99u32, 0xaabcceu32, 0xcbd6e2u32, 0xe5ebf1u32, 0xf7f9fbu32, 0xbf8b56u32, 0xbfbf56u32, 0x8bbf56u32, 0x56bf8bu32, 0x568bbfu32, 0x8b56bfu32, 0xbf568bu32, 0xbf5656u32]),
        ("harmonic-light"@, "Harmonic16 Light"@, seq![0xf7f9fbu32, 0xe5ebf1u32, 0xcbd6e2u32, 0xaabcceu32, 0x627e99u32, 0x405c79u32, 0x223b54u32, 0x0b1c2cu32, 0xbf8b56u32, 0xbfbf56u32, 0x8bbf56u32, 0x56bf8bu32, 0x568bbfu32, 0x8b56bfu32, 0xbf568bu32, 0xbf5656u32]),
        ("heetch-light"@, "Heetch Light"@, seq![0xfeffffu32, 0x392551u32, 0x7b6d8bu32, 0x9c92a8u32, 0xddd6e5u32, 0x5a496eu32, 0x470546u32, 0x190134u32, 0x27d9d5u32, 0xbdb6c5u32, 0x5ba2b6u32, 0xf80059u32, 0xc33678u32, 0x47f9f5u32, 0xbd0152u32, 0xdedae2u32]),
        ("heetch"@, "Heetch Dark"@, seq![0x190134u32, 0x392551u32, 0x5A496Eu32, 0x7B6D8Bu32, 0x9C92A8u32, 0xBDB6C5u32, 0xDEDAE2u32, 0xFEFFFFu32, 0x27D9D5u32, 0x5BA2B6u32, 0x8F6C97u32, 0xC33678u32, 0xF80059u32, 0xBD0152u32, 0x82034Cu32, 0x470546u32]),
        ("hopscotch"@, "Hopscotch"@, seq![0x322931u32, 0x433b42u32, 0x5c545bu32, 0x797379u32, 0x989498u32, 0xb9b5b8u32, 0xd5d3d5u32, 0xffffffu32, 0xdd464cu32, 0xfd8b19u32, 0xfdcc59u32, 0x8fc13eu32, 0x149b93u32, 0x1290bfu32, 0xc85e7cu32, 0xb33508u32]),
        ("ia-dark"@, "iA Dark"@, seq![0x1a1a1au32, 0x222222u32, 0x1d414du32, 0x767676u32, 0xb8b8b8u32, 0xccccccu32, 0xe8e8e8u32, 0xf8f8f8u32, 0xd88568u32, 0xd86868u32, 0xb99353u32, 0x83a471u32, 0x7c9caeu32, 0x8eccddu32, 0xb98eb2u32, 0x8b6c37u32]),
        ("ia-light"@, "iA Light"@, seq![0xf6f6f6u32, 0xdededeu32, 0xbde5f2u32, 0x898989u32, 0x767676u32, 0x181818u32, 0xe8e8e8u32, 0xf8f8f8u32, 0x9c5a02u32, 0xc43e18u32, 0xc48218u32, 0x38781cu32, 0x2d6bb1u32, 0x48bac2u32, 0xa94598u32, 0x8b6c37u32]),
        ("icy"@, "Icy Dark"@, seq![0x021012u32, 0x031619u32, 0x041f23u32, 0x052e34u32, 0x064048u32, 0x095b67u32, 0x0c7c8cu32, 0x109cb0u32, 0x16c1d9u32, 0xb3ebf2u32, 0x80deeau32, 0x4dd0e1u32, 0x26c6dau32, 0x00bcd4u32, 0x00acc1u32, 0x0097a7u32]),
        ("irblack"@, "IR Black"@, seq![0x000000u32, 0x242422u32, 0x484844u32, 0x6c6c66u32, 0x918f88u32, 0xb5b3aau32, 0xd9d7ccu32, 0xfdfbeeu32, 0xff6c60u32, 0xe9c062u32, 0xffffb6u32, 0xa8ff60u32, 0xc6c5feu32, 0x96cbfeu32, 0xff73fdu32, 0xb18a3du32]),
        ("isotope"@, "Isotope"@, seq![0x000000u32, 0x404040u32, 0x606060u32, 0x808080u32, 0xc0c0c0u32, 0xd0d0d0u32, 0xe0e0e0u32, 0xffffffu32, 0xff0000u32, 0xff9900u32, 0xff0099u32, 0x33ff00u32, 0x00ffffu32, 0x0066ffu32, 0xcc00ffu32, 0x3300ffu32]),
        ("macintosh"@, "Macintosh"@, seq![0x000000u32, 0x404040u32, 0x404040u32, 0x808080u32, 0x808080u32, 0xc0c0c0u32, 0xc0c0c0u32, 0xffffffu32, 0xdd0907u32, 0xff6403u32, 0xfbf305u32, 0x1fb714u32, 0x02abeau32, 0x0000d3u32, 0x4700a5u32, 0x90713au32]),
    ]
}

/// Entries 81 to 96 of the built-in table.
#[verifier::opaque]
pub open spec fn table_part_5() -> Seq<(Seq<char>, Seq<char>, Seq<u32>)> {
    seq![
        ("marrakesh"@, "Marrakesh"@, seq![0x201602u32, 0x302e00u32, 0x5f5b17u32, 0x6c6823u32, 0x86813bu32, 0x948e48u32, 0xccc37au32, 0xfaf0a5u32, 0xc35359u32, 0xb36144u32, 0xa88339u32, 0x18974eu32, 0x75a738u32, 0x477ca1u32, 0x8868b3u32, 0xb3588eu32]),
        ("materia"@, "Materia"@, seq![0x263238u32, 0x2C393Fu32, 0x37474Fu32, 0x707880u32, 0xC9CCD3u32, 0xCDD3DEu32, 0xD5DBE5u32, 0xFFFFFFu32, 0xEC5F67u32, 0xEA9560u32, 0xFFCC00u32, 0x8BD649u32, 0x80CBC4u32, 0x89DDFFu32, 0x82AAFFu32, 0xEC5F67u32]),
        ("material-darker"@, "Material Darker"@, seq![0x212121u32, 0x303030u32, 0x353535u32, 0x4A4A4Au32, 0xB2CCD6u32, 0xEEFFFFu32, 0xEEFFFFu32, 0xFFFFFFu32, 0xF07178u32, 0xF78C6Cu32, 0xFFCB6Bu32, 0xC3E88Du32, 0x89DDFFu32, 0x82AAFFu32, 0xC792EAu32, 0xFF5370u32]),
        ("material-lighter"@, "Material Lighter"@, seq![0xFAFAFAu32, 0xE7EAECu32, 0xCCEAE7u32, 0xCCD7DAu32, 0x8796B0u32, 0x80CBC4u32, 0x80CBC4u32, 0xFFFFFFu32, 0xFF5370u32, 0xF76D47u32, 0xFFB62Cu32, 0x91B859u32, 0x39ADB5u32, 0x6182B8u32, 0x7C4DFFu32, 0xE53935u32]),
        ("material-palenight"@, "Material Palenight"@, seq![0x292D3Eu32, 0x444267u32, 0x32374Du32, 0x676E95u32, 0x8796B0u32, 0x959DCBu32, 0x959DCBu32, 0xFFFFFFu32, 0xF07178u32, 0xF78C6Cu32, 0xFFCB6Bu32, 0xC3E88Du32, 0x89DDFFu32, 0x82AAFFu32, 0xC792EAu32, 0xFF5370u32]),
        ("material-vivid"@, "Material Vivid"@, seq![0x202124u32, 0x27292cu32, 0x323639u32, 0x44464du32, 0x676c71u32, 0x80868bu32, 0x9e9e9eu32, 0xffffffu32, 0xf44336u32, 0xff9800u32, 0xffeb3bu32, 0x00e676u32, 0x00bcd4u32, 0x2196f3u32, 0x673ab7u32, 0x8d6e63u32]),
        ("material"@, "Material"@, seq![0x263238u32, 0x2E3C43u32, 0x314549u32, 0x546E7Au32, 0xB2CCD6u32, 0xEEFFFFu32, 0xEEFFFFu32, 0xFFFFFFu32, 0xF07178u32, 0xF78C6Cu32, 0xFFCB6Bu32, 0xC3E88Du32, 0x89DDFFu32, 0x82AAFFu32, 0xC792EAu32, 0xFF5370u32]),
        ("mellow-purple"@, "Mellow Purple"@, seq![0x1e0528u32, 0x1A092Du32, 0x331354u32, 0x320f55u32, 0x873582u32, 0xffeeffu32, 0xffeeffu32, 0xf8c0ffu32, 0x00d9e9u32, 0xaa00a3u32, 0x955ae7u32, 0x05cb0du32, 0xb900b1u32, 0x550068u32, 0x8991bbu32, 0x4d6fffu32]),
        ("mexico-light"@, "Mexico Light"@, seq![0xf8f8f8u32, 0xe8e8e8u32, 0xd8d8d8u32, 0xb8b8b8u32, 0x585858u32, 0x383838u32, 0x282828u32, 0x181818u32, 0xab4642u32, 0xdc9656u32, 0xf79a0eu32, 0x538947u32, 0x4b8093u32, 0x7cafc2u32, 0x96609eu32, 0xa16946u32]),
        ("mocha"@, "Mocha"@, seq![0x3B3228u32, 0x534636u32, 0x645240u32, 0x7e705au32, 0xb8afadu32, 0xd0c8c6u32, 0xe9e1ddu32, 0xf5eeebu32, 0xcb6077u32, 0xd28b71u32, 0xf4bc87u32, 0xbeb55bu32, 0x7bbda4u32, 0x8ab3b5u32, 0xa89bb9u32, 0xbb9584u32]),
        ("monokai"@, "Monokai"@, seq![0x272822u32, 0x383830u32, 0x49483eu32, 0x75715eu32, 0xa59f85u32, 0xf8f8f2u32, 0xf5f4f1u32, 0xf9f8f5u32, 0xf92672u32, 0xfd971fu32, 0xf4bf75u32, 0xa6e22eu32, 0xa1efe4u32, 0x66d9efu32, 0xae81ffu32, 0xcc6633u32]),
        ("nord"@, "Nord"@, seq![0x2E3440u32, 0x3B4252u32, 0x434C5Eu32, 0x4C566Au32, 0xD8DEE9u32, 0xE5E9F0u32, 0xECEFF4u32, 0x8FBCBBu32, 0x88C0D0u32, 0x81A1C1u32, 0x5E81ACu32, 0xBF616Au32, 0xD08770u32, 0xEBCB8Bu32, 0xA3BE8Cu32, 0xB48EADu32]),
        ("ocean"@, "Ocean"@, seq![0x2b303bu32, 0x343d46u32, 0x4f5b66u32, 0x65737eu32, 0xa7adbau32, 0xc0c5ceu32, 0xdfe1e8u32, 0xeff1f5u32, 0xbf616au32, 0xd08770u32, 0xebcb8bu32, 0xa3be8cu32, 0x96b5b4u32, 0x8fa1b3u32, 0xb48eadu32, 0xab7967u32]),
        ("oceanicnext"@, "OceanicNext"@, seq![0x1B2B34u32, 0x343D46u32, 0x4F5B66u32, 0x65737Eu32, 0xA7ADBAu32, 0xC0C5CEu32, 0xCDD3DEu32, 0xD8DEE9u32, 0xEC5F67u32, 0xF99157u32, 0xFAC863u32, 0x99C794u32, 0x5FB3B3u32, 0x6699CCu32, 0xC594C5u32, 0xAB7967u32]),
        ("one-light"@, "One Light"@, seq![0xfafafau32, 0xf0f0f1u32, 0xe5e5e6u32, 0xa0a1a7u32, 0x696c77u32, 0x383a42u32, 0x202227u32, 0x090a0bu32, 0xca1243u32, 0xd75f00u32, 0xc18401u32, 0x50a14fu32, 0x0184bcu32, 0x4078f2u32, 0xa626a4u32, 0x986801u32]),
        ("onedark"@, "OneDark"@, seq![0x282c34u32, 0x353b45u32, 0x3e4451u32, 0x545862u32, 0x565c64u32, 0xabb2bfu32, 0xb6bdcau32, 0xc8ccd4u32, 0xe06c75u32, 0xd19a66u32, 0xe5c07bu32, 0x98c379u32, 0x56b6c2u32, 0x61afefu32, 0xc678ddu32, 0xbe5046u32]),
    ]
}

/// Entries 97 to 112 of the built-in table.
#[verifier::opaque]
pub open spec fn table_part_6() -> Seq<(Seq<char>, Seq<char>, Seq<u32>)> {
    seq![
        ("outrun-dark"@, "Outrun Dark"@, seq![0x00002Au32, 0x20204Au32, 0x30305Au32, 0x50507Au32, 0xB0B0DAu32, 0xD0D0FAu32, 0xE0E0FFu32, 0xF5F5FFu32, 0xFF4242u32, 0xFC8D28u32, 0xF3E877u32, 0x59F176u32, 0x0EF0F0u32, 0x66B0FFu32, 0xF10596u32, 0xF003EFu32]),
        ("papercolor-dark"@, "PaperColor Dark"@, seq![0x1c1c1cu32, 0xaf005fu32, 0x5faf00u32, 0xd7af5fu32, 0x5fafd7u32, 0x808080u32, 0xd7875fu32, 0xd0d0d0u32, 0x585858u32, 0x5faf5fu32, 0xafd700u32, 0xaf87d7u32, 0xffaf00u32, 0xff5fafu32, 0x00afafu32, 0x5f8787u32]),
        ("papercolor-light"@, "PaperColor Light"@, seq![0xeeeeeeu32, 0xaf0000u32, 0x008700u32, 0x5f8700u32, 0x0087afu32, 0x878787u32, 0x005f87u32, 0x444444u32, 0xbcbcbcu32, 0xd70000u32, 0xd70087u32, 0x8700afu32, 0xd75f00u32, 0xd75f00u32, 0x005fafu32, 0x005f87u32]),
        ("paraiso"@, "Paraiso"@, seq![0x2f1e2eu32, 0x41323fu32, 0x4f424cu32, 0x776e71u32, 0x8d8687u32, 0xa39e9bu32, 0xb9b6b0u32, 0xe7e9dbu32, 0xef6155u32, 0xf99b15u32, 0xfec418u32, 0x48b685u32, 0x5bc4bfu32, 0x06b6efu32, 0x815ba4u32, 0xe96ba8u32]),
        ("phd"@, "PhD"@, seq![0x061229u32, 0x2a3448u32, 0x4d5666u32, 0x717885u32, 0x9a99a3u32, 0xb8bbc2u32, 0xdbdde0u32, 0xffffffu32, 0xd07346u32, 0xf0a000u32, 0xfbd461u32, 0x99bf52u32, 0x72b9bfu32, 0x5299bfu32, 0x9989ccu32, 0xb08060u32]),
        ("pico"@, "Pico"@, seq![0x000000u32, 0x1d2b53u32, 0x7e2553u32, 0x008751u32, 0xab5236u32, 0x5f574fu32, 0xc2c3c7u32, 0xfff1e8u32, 0xff004du32, 0xffa300u32, 0xfff024u32, 0x00e756u32, 0x29adffu32, 0x83769cu32, 0xff77a8u32, 0xffccaau32]),
        ("pop"@, "Pop"@, seq![0x000000u32, 0x202020u32, 0x303030u32, 0x505050u32, 0xb0b0b0u32, 0xd0d0d0u32, 0xe0e0e0u32, 0xffffffu32, 0xeb008au32, 0xf29333u32, 0xf8ca12u32, 0x37b349u32, 0x00aabbu32, 0x0e5a94u32, 0xb31e8du32, 0x7a2d00u32]),
        ("porple"@, "Porple"@, seq![0x292c36u32, 0x333344u32, 0x474160u32, 0x65568au32, 0xb8b8b8u32, 0xd8d8d8u32, 0xe8e8e8u32, 0xf8f8f8u32, 0xf84547u32, 0xd28e5du32, 0xefa16bu32, 0x95c76fu32, 0x64878fu32, 0x8485ceu32, 0xb74989u32, 0x986841u32]),
        ("railscasts"@, "Railscasts"@, seq![0x2b2b2bu32, 0x272935u32, 0x3a4055u32, 0x5a647eu32, 0xd4cfc9u32, 0xe6e1dcu32, 0xf4f1edu32, 0xf9f7f3u32, 0xda4939u32, 0xcc7833u32, 0xffc66du32, 0xa5c261u32, 0x519f50u32, 0x6d9cbeu32, 0xb6b3ebu32, 0xbc9458u32]),
        ("rebecca"@, "Rebecca"@, seq![0x292a44u32, 0x663399u32, 0x383a62u32, 0x666699u32, 0xa0a0c5u32, 0xf1eff8u32, 0xccccffu32, 0x53495du32, 0xa0a0c5u32, 0xefe4a1u32, 0xae81ffu32, 0x6dfedfu32, 0x8eaee0u32, 0x2de0a7u32, 0x7aa5ffu32, 0xff79c6u32]),
        ("seti"@, "Seti UI"@, seq![0x151718u32, 0x282a2bu32, 0x3B758Cu32, 0x41535Bu32, 0x43a5d5u32, 0xd6d6d6u32, 0xeeeeeeu32, 0xffffffu32, 0xcd3f45u32, 0xdb7b55u32, 0xe6cd69u32, 0x9fca56u32, 0x55dbbeu32, 0x55b5dbu32, 0xa074c4u32, 0x8a553fu32]),
        ("shapeshifter"@, "Shapeshifter"@, seq![0xf9f9f9u32, 0xe0e0e0u32, 0xabababu32, 0x555555u32, 0x343434u32, 0x102015u32, 0x040404u32, 0x000000u32, 0xe92f2fu32, 0xe09448u32, 0xdddd13u32, 0x0ed839u32, 0x23eddau32, 0x3b48e3u32, 0xf996e2u32, 0x69542du32]),
        ("snazzy"@, "Snazzy"@, seq![0x282a36u32, 0x34353eu32, 0x43454fu32, 0x78787eu32, 0xa5a5a9u32, 0xe2e4e5u32, 0xeff0ebu32, 0xf1f1f0u32, 0xff5c57u32, 0xff9f43u32, 0xf3f99du32, 0x5af78eu32, 0x9aedfeu32, 0x57c7ffu32, 0xff6ac1u32, 0xb2643cu32]),
        ("solarflare"@, "Solar Flare"@, seq![0x18262Fu32, 0x222E38u32, 0x586875u32, 0x667581u32, 0x85939Eu32, 0xA6AFB8u32, 0xE8E9EDu32, 0xF5F7FAu32, 0xEF5253u32, 0xE66B2Bu32, 0xE4B51Cu32, 0x7CC844u32, 0x52CBB0u32, 0x33B5E1u32, 0xA363D5u32, 0xD73C9Au32]),
        ("solarized-dark"@, "Solarized Dark"@, seq![0x002b36u32, 0x073642u32, 0x586e75u32, 0x657b83u32, 0x839496u32, 0x93a1a1u32, 0xeee8d5u32, 0xfdf6e3u32, 0xdc322fu32, 0xcb4b16u32, 0xb58900u32, 0x859900u32, 0x2aa198u32, 0x268bd2u32, 0x6c71c4u32, 0xd33682u32]),
        ("solarized-light"@, "Solarized Light"@, seq![0xfdf6e3u32, 0xeee8d5u32, 0x93a1a1u32, 0x839496u32, 0x657b83u32, 0x586e75u32, 0x073642u32, 0x002b36u32, 0xdc322fu32, 0xcb4b16u32, 0xb58900u32, 0x859900u32, 0x2aa198u32, 0x268bd2u32, 0x6c71c4u32, 0xd33682u32]),
    ]
}

/// Entries 113 to 125 of the built-in table.
#[verifier::opaque]
pub open spec fn table_part_7() -> Seq<(Seq<char>, Seq<char>, Seq<u32>)> {
    seq![
        ("spacemacs"@, "Spacemacs"@, seq![0x1f2022u32, 0x282828u32, 0x444155u32, 0x585858u32, 0xb8b8b8u32, 0xa3a3a3u32, 0xe8e8e8u32, 0xf8f8f8u32, 0xf2241fu32, 0xffa500u32, 0xb1951du32, 0x67b11du32, 0x2d9574u32, 0x4f97d7u32, 0xa31db1u32, 0xb03060u32]),
        ("summerfruit-dark"@, "Summerfruit Dark"@, seq![0x151515u32, 0x202020u32, 0x303030u32, 0x505050u32, 0xB0B0B0u32, 0xD0D0D0u32, 0xE0E0E0u32, 0xFFFFFFu32, 0xFF0086u32, 0xFD8900u32, 0xABA800u32, 0x00C918u32, 0x1FAAAAu32, 0x3777E6u32, 0xAD00A1u32, 0xCC6633u32]),
        ("summerfruit-light"@, "Summerfruit Light"@, seq![0xFFFFFFu32, 0xE0E0E0u32, 0xD0D0D0u32, 0xB0B0B0u32, 0x000000u32, 0x101010u32, 0x151515u32, 0x202020u32, 0xFF0086u32, 0xFD8900u32, 0xABA800u32, 0x00C918u32, 0x1FAAAAu32, 0x3777E6u32, 0xAD00A1u32, 0xCC6633u32]),
        ("synth-midnight-dark"@, "Synth Midnight"@, seq![0x040404u32, 0x141414u32, 0x242424u32, 0x61507Au32, 0xBFBBBFu32, 0xDFDBDFu32, 0xEFEBEFu32, 0xFFFBFFu32, 0xB53B50u32, 0xE4600Eu32, 0xDAE84Du32, 0x06EA61u32, 0x7CEDE9u32, 0x03AEFFu32, 0xEA5CE2u32, 0x9D4D0Eu32]),
        ("tomorrow-night"@, "Tomorrow Night"@, seq![0x1d1f21u32, 0x282a2eu32, 0x373b41u32, 0x969896u32, 0xb4b7b4u32, 0xc5c8c6u32, 0xe0e0e0u32, 0xffffffu32, 0xcc6666u32, 0xde935fu32, 0xf0c674u32, 0xb5bd68u32, 0x8abeb7u32, 0x81a2beu32, 0xb294bbu32, 0xa3685au32]),
        ("tomorrow"@, "Tomorrow"@, seq![0xffffffu32, 0xe0e0e0u32, 0xd6d6d6u32, 0x8e908cu32, 0x969896u32, 0x4d4d4cu32, 0x282a2eu32, 0x1d1f21u32, 0xc82829u32, 0xf5871fu32, 0xeab700u32, 0x718c00u32, 0x3e999fu32, 0x4271aeu32, 0x8959a8u32, 0xa3685au32]),
        ("tube"@, "London Tube"@, seq![0x231f20u32, 0x1c3f95u32, 0x5a5758u32, 0x737171u32, 0x959ca1u32, 0xd9d8d8u32, 0xe7e7e8u32, 0xffffffu32, 0xee2e24u32, 0xf386a1u32, 0xffd204u32, 0x00853eu32, 0x85cebcu32, 0x009ddcu32, 0x98005du32, 0xb06110u32]),
        ("twilight"@, "Twilight"@, seq![0x1e1e1eu32, 0x323537u32, 0x464b50u32, 0x5f5a60u32, 0x838184u32, 0xa7a7a7u32, 0xc3c3c3u32, 0xffffffu32, 0xcf6a4cu32, 0xcda869u32, 0xf9ee98u32, 0x8f9d6au32, 0xafc4dbu32, 0x7587a6u32, 0x9b859du32, 0x9b703fu32]),
        ("unikitty-dark"@, "Unikitty Dark"@, seq![0x2e2a31u32, 0x4a464du32, 0x666369u32, 0x838085u32, 0x9f9da2u32, 0xbcbabeu32, 0xd8d7dau32, 0xf5f4f7u32, 0xd8137fu32, 0xd65407u32, 0xdc8a0eu32, 0x17ad98u32, 0x149bdau32, 0x796af5u32, 0xbb60eau32, 0xc720cau32]),
        ("unikitty-light"@, "Unikitty Light"@, seq![0xffffffu32, 0xe1e1e2u32, 0xc4c3c5u32, 0xa7a5a8u32, 0x89878bu32, 0x6c696eu32, 0x4f4b51u32, 0x322d34u32, 0xd8137fu32, 0xd65407u32, 0xdc8a0eu32, 0x17ad98u32, 0x149bdau32, 0x775dffu32, 0xaa17e6u32, 0xe013d0u32]),
        ("woodland"@, "Woodland"@, seq![0x231e18u32, 0x302b25u32, 0x48413au32, 0x9d8b70u32, 0xb4a490u32, 0xcabcb1u32, 0xd7c8bcu32, 0xe4d4c8u32, 0xd35c5cu32, 0xca7f32u32, 0xe0ac16u32, 0xb7ba53u32, 0x6eb958u32, 0x88a4d3u32, 0xbb90e2u32, 0xb49368u32]),
        ("xcode-dusk"@, "XCode Dusk"@, seq![0x282B35u32, 0x3D4048u32, 0x53555Du32, 0x686A71u32, 0x7E8086u32, 0x939599u32, 0xA9AAAEu32, 0xBEBFC2u32, 0xB21889u32, 0x786DC5u32, 0x438288u32, 0xDF0002u32, 0x00A0BEu32, 0x790EADu32, 0xB21889u32, 0xC77C48u32]),
        ("zenburn"@, "Zenburn"@, seq![0x383838u32, 0x404040u32, 0x606060u32, 0x6f6f6fu32, 0x808080u32, 0xdcdcccu32, 0xc0c0c0u32, 0xffffffu32, 0xdca3a3u32, 0xdfaf8fu32, 0xe0cf9fu32, 0x5f7f5fu32, 0x93e0e3u32, 0x7cb8bbu32, 0xdc8cc3u32, 0x000000u32]),
    ]
}

/// Appends entries 1 to 16 of the built-in table.
fn push_part_0(v: &mut Vec<Base16Scheme>)
    ensures
        final(v)@.map_values(|s: Base16Scheme| s@) == old(v)@.map_values(|s: Base16Scheme| s@) + table_part_0().map_values(
            |e: (Seq<char>, Seq<char>, Seq<u32>)| spec_scheme(e.0, e.1, e.2),
        ),
{
    reveal(table_part_0);
    let ghost start = v@;
    v.push(Base16Scheme::new("3024", "3024", vec![0x090300, 0x3a3432, 0x4a4543, 0x5c5855, 0x807d7c, 0xa5a2a2, 0xd6d5d4, 0xf7f7f7, 0xdb2d20, 0xe8bbd0, 0xfded02, 0x01a252, 0xb5e4f4, 0x01a0e4, 0xa16a94, 0xcdab53]));
    v.push(Base16Scheme::new("apathy", "Apathy", vec![0x031A16, 0x0B342D, 0x184E45, 0x2B685E, 0x5F9C92, 0x81B5AC, 0xA7CEC8, 0xD2E7E4, 0x3E9688, 0x3E7996, 0x3E4C96, 0x883E96, 0x963E4C, 0x96883E, 0x4C963E, 0x3E965B]));
    v.push(Base16Scheme::new("ashes", "Ashes", vec![0x1C2023, 0x393F45, 0x565E65, 0x747C84, 0xADB3BA, 0xC7CCD1, 0xDFE2E5, 0xF3F4F5, 0xC7AE95, 0xC7C795, 0xAEC795, 0x95C7AE, 0x95AEC7, 0xAE95C7, 0xC795AE, 0xC79595]));
    v.push(Base16Scheme::new("atelier-cave-light", "Atelier Cave Light", vec![0xefecf4, 0xe2dfe7, 0x8b8792, 0x7e7887, 0x655f6d, 0x585260, 0x26232a, 0x19171c, 0xbe4678, 0xaa573c, 0xa06e3b, 0x2a9292, 0x398bc6, 0x576ddb, 0x955ae7, 0xbf40bf]));
    v.push(Base16Scheme::new("atelier-cave", "Atelier Cave", vec![0x19171c, 0x26232a, 0x585260, 0x655f6d, 0x7e7887, 0x8b8792, 0xe2dfe7, 0xefecf4, 0xbe4678, 0xaa573c, 0xa06e3b, 0x2a9292, 0x398bc6, 0x576ddb, 0x955ae7, 0xbf40bf]));
    v.push(Base16Scheme::new("atelier-dune-light", "Atelier Dune Light", vec![0xfefbec, 0xe8e4cf, 0xa6a28c, 0x999580, 0x7d7a68, 0x6e6b5e, 0x292824, 0x20201d, 0xd73737, 0xb65611, 0xae9513, 0x60ac39, 0x1fad83, 0x6684e1, 0xb854d4, 0xd43552]));
    v.push(Base16Scheme::new("atelier-dune", "Atelier Dune", vec![0x20201d, 0x292824, 0x6e6b5e, 0x7d7a68, 0x999580, 0xa6a28c, 0xe8e4cf, 0xfefbec, 0xd73737, 0xb65611, 0xae9513, 0x60ac39, 0x1fad83, 0x6684e1, 0xb854d4, 0xd43552]));
    v.push(Base16Scheme::new("atelier-estuary-light", "Atelier Estuary Light", vec![0xf4f3ec, 0xe7e6df, 0x929181, 0x878573, 0x6c6b5a, 0x5f5e4e, 0x302f27, 0x22221b, 0xba6236, 0xae7313, 0xa5980d, 0x7d9726, 0x5b9d48, 0x36a166, 0x5f9182, 0x9d6c7c]));
    v.push(Base16Scheme::new("atelier-estuary", "Atelier Estuary", vec![0x22221b, 0x302f27, 0x5f5e4e, 0x6c6b5a, 0x878573, 0x929181, 0xe7e6df, 0xf4f3ec, 0xba6236, 0xae7313, 0xa5980d, 0x7d9726, 0x5b9d48, 0x36a166, 0x5f9182, 0x9d6c7c]));
    v.push(Base16Scheme::new("atelier-forest-light", "Atelier Forest Light", vec![0xf1efee, 0xe6e2e0, 0xa8a19f, 0x9c9491, 0x766e6b, 0x68615e, 0x2c2421, 0x1b1918, 0xf22c40, 0xdf5320, 0xc38418, 0x7b9726, 0x3d97b8, 0x407ee7, 0x6666ea, 0xc33ff3]));
    v.push(Base16Scheme::new("atelier-forest", "Atelier Forest", vec![0x1b1918, 0x2c2421, 0x68615e, 0x766e6b, 0x9c9491, 0xa8a19f, 0xe6e2e0, 0xf1efee, 0xf22c40, 0xdf5320, 0xc38418, 0x7b9726, 0x3d97b8, 0x407ee7, 0x6666ea, 0xc33ff3]));
    v.push(Base16Scheme::new("atelier-heath-light", "Atelier Heath Light", vec![0xf7f3f7, 0xd8cad8, 0xab9bab, 0x9e8f9e, 0x776977, 0x695d69, 0x292329, 0x1b181b, 0xca402b, 0xa65926, 0xbb8a35, 0x918b3b, 0x159393, 0x516aec, 0x7b59c0, 0xcc33cc]));
    v.push(Base16Scheme::new("atelier-heath", "Atelier Heath", vec![0x1b181b, 0x292329, 0x695d69, 0x776977, 0x9e8f9e, 0xab9bab, 0xd8cad8, 0xf7f3f7, 0xca402b, 0xa65926, 0xbb8a35, 0x918b3b, 0x159393, 0x516aec, 0x7b59c0, 0xcc33cc]));
    v.push(Base16Scheme::new("atelier-lakeside-light", "Atelier Lakeside Light", vec![0xebf8ff, 0xc1e4f6, 0x7ea2b4, 0x7195a8, 0x5a7b8c, 0x516d7b, 0x1f292e, 0x161b1d, 0xd22d72, 0x935c25, 0x8a8a0f, 0x568c3b, 0x2d8f6f, 0x257fad, 0x6b6bb8, 0xb72dd2]));
    v.push(Base16Scheme::new("atelier-lakeside", "Atelier Lakeside", vec![0x161b1d, 0x1f292e, 0x516d7b, 0x5a7b8c, 0x7195a8, 0x7ea2b4, 0xc1e4f6, 0xebf8ff, 0xd22d72, 0x935c25, 0x8a8a0f, 0x568c3b, 0x2d8f6f, 0x257fad, 0x6b6bb8, 0xb72dd2]));
    v.push(Base16Scheme::new("atelier-plateau-light", "Atelier Plateau Light", vec![0xf4ecec, 0xe7dfdf, 0x8a8585, 0x7e7777, 0x655d5d, 0x585050, 0x292424, 0x1b1818, 0xca4949, 0xb45a3c, 0xa06e3b, 0x4b8b8b, 0x5485b6, 0x7272ca, 0x8464c4, 0xbd5187]));
    assert(v@.map_values(|s: Base16Scheme| s@) =~= start.map_values(|s: Base16Scheme| s@) + table_part_0().map_values(
        |e: (Seq<char>, Seq<char>, Seq<u32>)| spec_scheme(e.0, e.1, e.2),
    ));
}

/// Appends entries 17 to 32 of the built-in table.
fn push_part_1(v: &mut Vec<Base16Scheme>)
    ensures
        final(v)@.map_values(|s: Base16Scheme| s@) == old(v)@.map_values(|s: Base16Scheme| s@) + table_part_1().map_values(
            |e: (Seq<char>, Seq<char>, Seq<u32>)| spec_scheme(e.0, e.1, e.2),
        ),
{
    reveal(table_part_1);
    let ghost start = v@;
    v.push(Base16Scheme::new("atelier-plateau", "Atelier Plateau", vec![0x1b1818, 0x292424, 0x585050, 0x655d5d, 0x7e7777, 0x8a8585, 0xe7dfdf, 0xf4ecec, 0xca4949, 0xb45a3c, 0xa06e3b, 0x4b8b8b, 0x5485b6, 0x7272ca, 0x8464c4, 0xbd5187]));
    v.push(Base16Scheme::new("atelier-savanna-light", "Atelier Savanna Light", vec![0xecf4ee, 0xdfe7e2, 0x87928a, 0x78877d, 0x5f6d64, 0x526057, 0x232a25, 0x171c19, 0xb16139, 0x9f713c, 0xa07e3b, 0x489963, 0x1c9aa0, 0x478c90, 0x55859b, 0x867469]));
    v.push(Base16Scheme::new("atelier-savanna", "Atelier Savanna", vec![0x171c19, 0x232a25, 0x526057, 0x5f6d64, 0x78877d, 0x87928a, 0xdfe7e2, 0xecf4ee, 0xb16139, 0x9f713c, 0xa07e3b, 0x489963, 0x1c9aa0, 0x478c90, 0x55859b, 0x867469]));
    v.push(Base16Scheme::new("atelier-seaside-light", "Atelier Seaside Light", vec![0xf4fbf4, 0xcfe8cf, 0x8ca68c, 0x809980, 0x687d68, 0x5e6e5e, 0x242924, 0x131513, 0xe6193c, 0x87711d, 0x98981b, 0x29a329, 0x1999b3, 0x3d62f5, 0xad2bee, 0xe619c3]));
    v.push(Base16Scheme::new("atelier-seaside", "Atelier Seaside", vec![0x131513, 0x242924, 0x5e6e5e, 0x687d68, 0x809980, 0x8ca68c, 0xcfe8cf, 0xf4fbf4, 0xe6193c, 0x87711d, 0x98981b, 0x29a329, 0x1999b3, 0x3d62f5, 0xad2bee, 0xe619c3]));
    v.push(Base16Scheme::new("atelier-sulphurpool-light", "Atelier Sulphurpool Light", vec![0xf5f7ff, 0xdfe2f1, 0x979db4, 0x898ea4, 0x6b7394, 0x5e6687, 0x293256, 0x202746, 0xc94922, 0xc76b29, 0xc08b30, 0xac9739, 0x22a2c9, 0x3d8fd1, 0x6679cc, 0x9c637a]));
    v.push(Base16Scheme::new("atelier-sulphurpool", "Atelier Sulphurpool", vec![0x202746, 0x293256, 0x5e6687, 0x6b7394, 0x898ea4, 0x979db4, 0xdfe2f1, 0xf5f7ff, 0xc94922, 0xc76b29, 0xc08b30, 0xac9739, 0x22a2c9, 0x3d8fd1, 0x6679cc, 0x9c637a]));
    v.push(Base16Scheme::new("atlas", "Atlas", vec![0x002635, 0x00384d, 0x517F8D, 0x6C8B91, 0x869696, 0xa1a19a, 0xe6e6dc, 0xfafaf8, 0xff5a67, 0xf08e48, 0xffcc1b, 0x7fc06e, 0x14747e, 0x5dd7b9, 0x9a70a4, 0xc43060]));
    v.push(Base16Scheme::new("bespin", "Bespin", vec![0x28211c, 0x36312e, 0x5e5d5c, 0x666666, 0x797977, 0x8a8986, 0x9d9b97, 0xbaae9e, 0xcf6a4c, 0xcf7d34, 0xf9ee98, 0x54be0d, 0xafc4db, 0x5ea6ea, 0x9b859d, 0x937121]));
    v.push(Base16Scheme::new("black-metal-bathory", "Black Metal (Bathory)", vec![0x000000, 0x121212, 0x222222, 0x333333, 0x999999, 0xc1c1c1, 0x999999, 0xc1c1c1, 0x5f8787, 0xaaaaaa, 0xe78a53, 0xfbcb97, 0xaaaaaa, 0x888888, 0x999999, 0x444444]));
    v.push(Base16Scheme::new("black-metal-burzum", "Black Metal (Burzum)", vec![0x000000, 0x121212, 0x222222, 0x333333, 0x999999, 0xc1c1c1, 0x999999, 0xc1c1c1, 0x5f8787, 0xaaaaaa, 0x99bbaa, 0xddeecc, 0xaaaaaa, 0x888888, 0x999999, 0x444444]));
    v.push(Base16Scheme::new("black-metal-dark-funeral", "Black Metal (Dark Funeral)", vec![0x000000, 0x121212, 0x222222, 0x333333, 0x999999, 0xc1c1c1, 0x999999, 0xc1c1c1, 0x5f8787, 0xaaaaaa, 0x5f81a5, 0xd0dfee, 0xaaaaaa, 0x888888, 0x999999, 0x444444]));
    v.push(Base16Scheme::new("black-metal-gorgoroth", "Black Metal (Gorgoroth)", vec![0x000000, 0x121212, 0x222222, 0x333333, 0x999999, 0xc1c1c1, 0x999999, 0xc1c1c1, 0x5f8787, 0xaaaaaa, 0x8c7f70, 0x9b8d7f, 0xaaaaaa, 0x888888, 0x999999, 0x444444]));
    v.push(Base16Scheme::new("black-metal-immortal", "Black Metal (Immortal)", vec![0x000000, 0x121212, 0x222222, 0x333333, 0x999999, 0xc1c1c1, 0x999999, 0xc1c1c1, 0x5f8787, 0xaaaaaa, 0x556677, 0x7799bb, 0xaaaaaa, 0x888888, 0x999999, 0x444444]));
    v.push(Base16Scheme::new("black-metal-khold", "Black Metal (Khold)", vec![0x000000, 0x121212, 0x222222, 0x333333, 0x999999, 0xc1c1c1, 0x999999, 0xc1c1c1, 0x5f8787, 0xaaaaaa, 0x974b46, 0xeceee3, 0xaaaaaa, 0x888888, 0x999999, 0x444444]));
    v.push(Base16Scheme::new("black-metal-marduk", "Black Metal (Marduk)", vec![0x000000, 0x121212, 0x222222, 0x333333, 0x999999, 0xc1c1c1, 0x999999, 0xc1c1c1, 0x5f8787, 0xaaaaaa, 0x626b67, 0xa5aaa7, 0xaaaaaa, 0x888888, 0x999999, 0x444444]));
    assert(v@.map_values(|s: Base16Scheme| s@) =~= start.map_values(|s: Base16Scheme| s@) + table_part_1().map_values(
        |e: (Seq<char>, Seq<char>, Seq<u32>)| spec_scheme(e.0, e.1, e.2),
    ));
}

/// Appends entries 33 to 48 of the built-in table.
fn push_part_2(v: &mut Vec<Base16Scheme>)
    ensures
        final(v)@.map_values(|s: Base16Scheme| s@) == old(v)@.map_values(|s: Base16Scheme| s@) + table_part_2().map_values(
            |e: (Seq<char>, Seq<char>, Seq<u32>)| spec_scheme(e.0, e.1, e.2),
        ),
{
    reveal(table_part_2);
    let ghost start = v@;
    v.push(Base16Scheme::new("black-metal-mayhem", "Black Metal (Mayhem)", vec![0x000000, 0x121212, 0x222222, 0x333333, 0x999999, 0xc1c1c1, 0x999999, 0xc1c1c1, 0x5f8787, 0xaaaaaa, 0xeecc6c, 0xf3ecd4, 0xaaaaaa, 0x888888, 0x999999, 0x444444]));
    v.push(Base16Scheme::new("black-metal-nile", "Black Metal (Nile)", vec![0x000000, 0x121212, 0x222222, 0x333333, 0x999999, 0xc1c1c1, 0x999999, 0xc1c1c1, 0x5f8787, 0xaaaaaa, 0x777755, 0xaa9988, 0xaaaaaa, 0x888888, 0x999999, 0x444444]));
    v.push(Base16Scheme::new("black-metal-venom", "Black Metal (Venom)", vec![0x000000, 0x121212, 0x222222, 0x333333, 0x999999, 0xc1c1c1, 0x999999, 0xc1c1c1, 0x5f8787, 0xaaaaaa, 0x79241f, 0xf8f7f2, 0xaaaaaa, 0x888888, 0x999999, 0x444444]));
    v.push(Base16Scheme::new("black-metal", "Black Metal", vec![0x000000, 0x121212, 0x222222, 0x333333, 0x999999, 0xc1c1c1, 0x999999, 0xc1c1c1, 0x5f8787, 0xaaaaaa, 0xa06666, 0xdd9999, 0xaaaaaa, 0x888888, 0x999999, 0x444444]));
    v.push(Base16Scheme::new("brewer", "Brewer", vec![0x0c0d0e, 0x2e2f30, 0x515253, 0x737475, 0x959697, 0xb7b8b9, 0xdadbdc, 0xfcfdfe, 0xe31a1c, 0xe6550d, 0xdca060, 0x31a354, 0x80b1d3, 0x3182bd, 0x756bb1, 0xb15928]));
    v.push(Base16Scheme::new("bright", "Bright", vec![0x000000, 0x303030, 0x505050, 0xb0b0b0, 0xd0d0d0, 0xe0e0e0, 0xf5f5f5, 0xffffff, 0xfb0120, 0xfc6d24, 0xfda331, 0xa1c659, 0x76c7b7, 0x6fb3d2, 0xd381c3, 0xbe643c]));
    v.push(Base16Scheme::new("brogrammer", "Brogrammer", vec![0x1f1f1f, 0xf81118, 0x2dc55e, 0xecba0f, 0x2a84d2, 0x4e5ab7, 0x1081d6, 0xd6dbe5, 0xd6dbe5, 0xde352e, 0x1dd361, 0xf3bd09, 0x1081d6, 0x5350b9, 0x0f7ddb, 0xffffff]));
    v.push(Base16Scheme::new("brushtrees-dark", "Brush Trees Dark", vec![0x485867, 0x5A6D7A, 0x6D828E, 0x8299A1, 0x98AFB5, 0xB0C5C8, 0xC9DBDC, 0xE3EFEF, 0xb38686, 0xd8bba2, 0xaab386, 0x87b386, 0x86b3b3, 0x868cb3, 0xb386b2, 0xb39f9f]));
    v.push(Base16Scheme::new("brushtrees", "Brush Trees", vec![0xE3EFEF, 0xC9DBDC, 0xB0C5C8, 0x98AFB5, 0x8299A1, 0x6D828E, 0x5A6D7A, 0x485867, 0xb38686, 0xd8bba2, 0xaab386, 0x87b386, 0x86b3b3, 0x868cb3, 0xb386b2, 0xb39f9f]));
    v.push(Base16Scheme::new("chalk", "Chalk", vec![0x151515, 0x202020, 0x303030, 0x505050, 0xb0b0b0, 0xd0d0d0, 0xe0e0e0, 0xf5f5f5, 0xfb9fb1, 0xeda987, 0xddb26f, 0xacc267, 0x12cfc0, 0x6fc2ef, 0xe1a3ee, 0xdeaf8f]));
    v.push(Base16Scheme::new("circus", "Circus", vec![0x191919, 0x202020, 0x303030, 0x5f5a60, 0x505050, 0xa7a7a7, 0x808080, 0xffffff, 0xdc657d, 0x4bb1a7, 0xc3ba63, 0x84b97c, 0x4bb1a7, 0x639ee4, 0xb888e2, 0xb888e2]));
    v.push(Base16Scheme::new("classic-dark", "Classic Dark", vec![0x151515, 0x202020, 0x303030, 0x505050, 0xB0B0B0, 0xD0D0D0, 0xE0E0E0, 0xF5F5F5, 0xAC4142, 0xD28445, 0xF4BF75, 0x90A959, 0x75B5AA, 0x6A9FB5, 0xAA759F, 0x8F5536]));
    v.push(Base16Scheme::new("classic-light", "Classic Light", vec![0xF5F5F5, 0xE0E0E0, 0xD0D0D0, 0xB0B0B0, 0x505050, 0x303030, 0x202020, 0x151515, 0xAC4142, 0xD28445, 0xF4BF75, 0x90A959, 0x75B5AA, 0x6A9FB5, 0xAA759F, 0x8F5536]));
    v.push(Base16Scheme::new("codeschool", "Codeschool", vec![0x232c31, 0x1c3657, 0x2a343a, 0x3f4944, 0x84898c, 0x9ea7a6, 0xa7cfa3, 0xb5d8f6, 0x2a5491, 0x43820d, 0xa03b1e, 0x237986, 0xb02f30, 0x484d79, 0xc59820, 0xc98344]));
    v.push(Base16Scheme::new("cupcake", "Cupcake", vec![0xfbf1f2, 0xf2f1f4, 0xd8d5dd, 0xbfb9c6, 0xa59daf, 0x8b8198, 0x72677E, 0x585062, 0xD57E85, 0xEBB790, 0xDCB16C, 0xA3B367, 0x69A9A7, 0x7297B9, 0xBB99B4, 0xBAA58C]));
    v.push(Base16Scheme::new("cupertino", "Cupertino", vec![0xffffff, 0xc0c0c0, 0xc0c0c0, 0x808080, 0x808080, 0x404040, 0x404040, 0x5e5e5e, 0xc41a15, 0xeb8500, 0x826b28, 0x007400, 0x318495, 0x0000ff, 0xa90d91, 0x826b28]));
    assert(v@.map_values(|s: Base16Scheme| s@) =~= start.map_values(|s: Base16Scheme| s@) + table_part_2().map_values(
        |e: (Seq<char>, Seq<char>, Seq<u32>)| spec_scheme(e.0, e.1, e.2),
    ));
}

/// Appends entries 49 to 64 of the built-in table.
fn push_part_3(v: &mut Vec<Base16Scheme>)
    ensures
        final(v)@.map_values(|s: Base16Scheme| s@) == old(v)@.map_values(|s: Base16Scheme| s@) + table_part_3().map_values(
            |e: (Seq<char>, Seq<char>, Seq<u32>)| spec_scheme(e.0, e.1, e.2),
        ),
{
    reveal(table_part_3);
    let ghost start = v@;
    v.push(Base16Scheme::new("darktooth", "Darktooth", vec![0x1D2021, 0x32302F, 0x504945, 0x665C54, 0x928374, 0xA89984, 0xD5C4A1, 0xFDF4C1, 0xFB543F, 0xFE8625, 0xFAC03B, 0x95C085, 0x8BA59B, 0x0D6678, 0x8F4673, 0xA87322]));
    v.push(Base16Scheme::new("default-dark", "Default Dark", vec![0x181818, 0x282828, 0x383838, 0x585858, 0xb8b8b8, 0xd8d8d8, 0xe8e8e8, 0xf8f8f8, 0xab4642, 0xdc9656, 0xf7ca88, 0xa1b56c, 0x86c1b9, 0x7cafc2, 0xba8baf, 0xa16946]));
    v.push(Base16Scheme::new("default-light", "Default Light", vec![0xf8f8f8, 0xe8e8e8, 0xd8d8d8, 0xb8b8b8, 0x585858, 0x383838, 0x282828, 0x181818, 0xab4642, 0xdc9656, 0xf7ca88, 0xa1b56c, 0x86c1b9, 0x7cafc2, 0xba8baf, 0xa16946]));
    v.push(Base16Scheme::new("dracula", "Dracula", vec![0x282936, 0x3a3c4e, 0x4d4f68, 0x626483, 0x62d6e8, 0xe9e9f4, 0xf1f2f8, 0xf7f7fb, 0xea51b2, 0xb45bcf, 0x00f769, 0xebff87, 0xa1efe4, 0x62d6e8, 0xb45bcf, 0x00f769]));
    v.push(Base16Scheme::new("eighties", "Eighties", vec![0x2d2d2d, 0x393939, 0x515151, 0x747369, 0xa09f93, 0xd3d0c8, 0xe8e6df, 0xf2f0ec, 0xf2777a, 0xf99157, 0xffcc66, 0x99cc99, 0x66cccc, 0x6699cc, 0xcc99cc, 0xd27b53]));
    v.push(Base16Scheme::new("embers", "Embers", vec![0x16130F, 0x2C2620, 0x433B32, 0x5A5047, 0x8A8075, 0xA39A90, 0xBEB6AE, 0xDBD6D1, 0x826D57, 0x828257, 0x6D8257, 0x57826D, 0x576D82, 0x6D5782, 0x82576D, 0x825757]));
    v.push(Base16Scheme::new("flat", "Flat", vec![0x2C3E50, 0x34495E, 0x7F8C8D, 0x95A5A6, 0xBDC3C7, 0xe0e0e0, 0xf5f5f5, 0xECF0F1, 0xE74C3C, 0xE67E22, 0xF1C40F, 0x2ECC71, 0x1ABC9C, 0x3498DB, 0x9B59B6, 0xbe643c]));
    v.push(Base16Scheme::new("fruit-soda", "Fruit Soda", vec![0xf1ecf1, 0xe0dee0, 0xd8d5d5, 0xb5b4b6, 0x979598, 0x515151, 0x474545, 0x2d2c2c, 0xfe3e31, 0xfe6d08, 0xf7e203, 0x47f74c, 0x0f9cfd, 0x2931df, 0x611fce, 0xb16f40]));
    v.push(Base16Scheme::new("github", "Github", vec![0xffffff, 0xf5f5f5, 0xc8c8fa, 0x969896, 0xe8e8e8, 0x333333, 0xffffff, 0xffffff, 0xed6a43, 0x0086b3, 0x795da3, 0x183691, 0x183691, 0x795da3, 0xa71d5d, 0x333333]));
    v.push(Base16Scheme::new("google-dark", "Google Dark", vec![0x1d1f21, 0x282a2e, 0x373b41, 0x969896, 0xb4b7b4, 0xc5c8c6, 0xe0e0e0, 0xffffff, 0xCC342B, 0xF96A38, 0xFBA922, 0x198844, 0x3971ED, 0x3971ED, 0xA36AC7, 0x3971ED]));
    v.push(Base16Scheme::new("google-light", "Google Light", vec![0xffffff, 0xe0e0e0, 0xc5c8c6, 0xb4b7b4, 0x969896, 0x373b41, 0x282a2e, 0x1d1f21, 0xCC342B, 0xF96A38, 0xFBA922, 0x198844, 0x3971ED, 0x3971ED, 0xA36AC7, 0x3971ED]));
    v.push(Base16Scheme::new("grayscale-dark", "Grayscale Dark", vec![0x101010, 0x252525, 0x464646, 0x525252, 0xababab, 0xb9b9b9, 0xe3e3e3, 0xf7f7f7, 0x7c7c7c, 0x999999, 0xa0a0a0, 0x8e8e8e, 0x868686, 0x686868, 0x747474, 0x5e5e5e]));
    v.push(Base16Scheme::new("grayscale-light", "Grayscale Light", vec![0xf7f7f7, 0xe3e3e3, 0xb9b9b9, 0xababab, 0x525252, 0x464646, 0x252525, 0x101010, 0x7c7c7c, 0x999999, 0xa0a0a0, 0x8e8e8e, 0x868686, 0x686868, 0x747474, 0x5e5e5e]));
    v.push(Base16Scheme::new("greenscreen", "Green Screen", vec![0x001100, 0x003300, 0x005500, 0x007700, 0x009900, 0x00bb00, 0x00dd00, 0x00ff00, 0x007700, 0x009900, 0x007700, 0x00bb00, 0x005500, 0x009900, 0x00bb00, 0x005500]));
    v.push(Base16Scheme::new("gruvbox-dark-hard", "Gruvbox dark, hard", vec![0x1d2021, 0x3c3836, 0x504945, 0x665c54, 0xbdae93, 0xd5c4a1, 0xebdbb2, 0xfbf1c7, 0xfb4934, 0xfe8019, 0xfabd2f, 0xb8bb26, 0x8ec07c, 0x83a598, 0xd3869b, 0xd65d0e]));
    v.push(Base16Scheme::new("gruvbox-dark-medium", "Gruvbox dark, medium", vec![0x282828, 0x3c3836, 0x504945, 0x665c54, 0xbdae93, 0xd5c4a1, 0xebdbb2, 0xfbf1c7, 0xfb4934, 0xfe8019, 0xfabd2f, 0xb8bb26, 0x8ec07c, 0x83a598, 0xd3869b, 0xd65d0e]));
    assert(v@.map_values(|s: Base16Scheme| s@) =~= start.map_values(|s: Base16Scheme| s@) + table_part_3().map_values(
        |e: (Seq<char>, Seq<char>, Seq<u32>)| spec_scheme(e.0, e.1, e.2),
    ));
}

/// Appends entries 65 to 80 of the built-in table.
fn push_part_4(v: &mut Vec<Base16Scheme>)
    ensures
        final(v)@.map_values(|s: Base16Scheme| s@) == old(v)@.map_values(|s: Base16Scheme| s@) + table_part_4().map_values(
            |e: (Seq<char>, Seq<char>, Seq<u32>)| spec_scheme(e.0, e.1, e.2),
        ),
{
    reveal(table_part_4);
    let ghost start = v@;
    v.push(Base16Scheme::new("gruvbox-dark-pale", "Gruvbox dark, pale", vec![0x262626, 0x3a3a3a, 0x4e4e4e, 0x8a8a8a, 0x949494, 0xdab997, 0xd5c4a1, 0xebdbb2, 0xd75f5f, 0xff8700, 0xffaf00, 0xafaf00, 0x85ad85, 0x83adad, 0xd485ad, 0xd65d0e]));
    v.push(Base16Scheme::new("gruvbox-dark-soft", "Gruvbox dark, soft", vec![0x32302f, 0x3c3836, 0x504945, 0x665c54, 0xbdae93, 0xd5c4a1, 0xebdbb2, 0xfbf1c7, 0xfb4934, 0xfe8019, 0xfabd2f, 0xb8bb26, 0x8ec07c, 0x83a598, 0xd3869b, 0xd65d0e]));
    v.push(Base16Scheme::new("gruvbox-light-hard", "Gruvbox light, hard", vec![0xf9f5d7, 0xebdbb2, 0xd5c4a1, 0xbdae93, 0x665c54, 0x504945, 0x3c3836, 0x282828, 0x9d0006, 0xaf3a03, 0xb57614, 0x79740e, 0x427b58, 0x076678, 0x8f3f71, 0xd65d0e]));
    v.push(Base16Scheme::new("gruvbox-light-medium", "Gruvbox light, medium", vec![0xfbf1c7, 0xebdbb2, 0xd5c4a1, 0xbdae93, 0x665c54, 0x504945, 0x3c3836, 0x282828, 0x9d0006, 0xaf3a03, 0xb57614, 0x79740e, 0x427b58, 0x076678, 0x8f3f71, 0xd65d0e]));
    v.push(Base16Scheme::new("gruvbox-light-soft", "Gruvbox light, soft", vec![0xf2e5bc, 0xebdbb2, 0xd5c4a1, 0xbdae93, 0x665c54, 0x504945, 0x3c3836, 0x282828, 0x9d0006, 0xaf3a03, 0xb57614, 0x79740e, 0x427b58, 0x076678, 0x8f3f71, 0xd65d0e]));
    v.push(Base16Scheme::new("harmonic-dark", "Harmonic16 Dark", vec![0x0b1c2c, 0x223b54, 0x405c79, 0x627e99, 0xaabcce, 0xcbd6e2, 0xe5ebf1, 0xf7f9fb, 0xbf8b56, 0xbfbf56, 0x8bbf56, 0x56bf8b, 0x568bbf, 0x8b56bf, 0xbf568b, 0xbf5656]));
    v.push(Base16Scheme::new("harmonic-light", "Harmonic16 Light", vec![0xf7f9fb, 0xe5ebf1, 0xcbd6e2, 0xaabcce, 0x627e99, 0x405c79, 0x223b54, 0x0b1c2c, 0xbf8b56, 0xbfbf56, 0x8bbf56, 0x56bf8b, 0x568bbf, 0x8b56bf, 0xbf568b, 0xbf5656]));
    v.push(Base16Scheme::new("heetch-light", "Heetch Light", vec![0xfeffff, 0x392551, 0x7b6d8b, 0x9c92a8, 0xddd6e5, 0x5a496e, 0x470546, 0x190134, 0x27d9d5, 0xbdb6c5, 0x5ba2b6, 0xf80059, 0xc33678, 0x47f9f5, 0xbd0152, 0xdedae2]));
    v.push(Base16Scheme::new("heetch", "Heetch Dark", vec![0x190134, 0x392551, 0x5A496E, 0x7B6D8B, 0x9C92A8, 0xBDB6C5, 0xDEDAE2, 0xFEFFFF, 0x27D9D5, 0x5BA2B6, 0x8F6C97, 0xC33678, 0xF80059, 0xBD0152, 0x82034C, 0x470546]));
    v.push(Base16Scheme::new("hopscotch", "Hopscotch", vec![0x322931, 0x433b42, 0x5c545b, 0x797379, 0x989498, 0xb9b5b8, 0xd5d3d5, 0xffffff, 0xdd464c, 0xfd8b19, 0xfdcc59, 0x8fc13e, 0x149b93, 0x1290bf, 0xc85e7c, 0xb33508]));
    v.push(Base16Scheme::new("ia-dark", "iA Dark", vec![0x1a1a1a, 0x222222, 0x1d414d, 0x767676, 0xb8b8b8, 0xcccccc, 0xe8e8e8, 0xf8f8f8, 0xd88568, 0xd86868, 0xb99353, 0x83a471, 0x7c9cae, 0x8eccdd, 0xb98eb2, 0x8b6c37]));
    v.push(Base16Scheme::new("ia-light", "iA Light", vec![0xf6f6f6, 0xdedede, 0xbde5f2, 0x898989, 0x767676, 0x181818, 0xe8e8e8, 0xf8f8f8, 0x9c5a02, 0xc43e18, 0xc48218, 0x38781c, 0x2d6bb1, 0x48bac2, 0xa94598, 0x8b6c37]));
    v.push(Base16Scheme::new("icy", "Icy Dark", vec![0x021012, 0x031619, 0x041f23, 0x052e34, 0x064048, 0x095b67, 0x0c7c8c, 0x109cb0, 0x16c1d9, 0xb3ebf2, 0x80deea, 0x4dd0e1, 0x26c6da, 0x00bcd4, 0x00acc1, 0x0097a7]));
    v.push(Base16Scheme::new("irblack", "IR Black", vec![0x000000, 0x242422, 0x484844, 0x6c6c66, 0x918f88, 0xb5b3aa, 0xd9d7cc, 0xfdfbee, 0xff6c60, 0xe9c062, 0xffffb6, 0xa8ff60, 0xc6c5fe, 0x96cbfe, 0xff73fd, 0xb18a3d]));
    v.push(Base16Scheme::new("isotope", "Isotope", vec![0x000000, 0x404040, 0x606060, 0x808080, 0xc0c0c0, 0xd0d0d0, 0xe0e0e0, 0xffffff, 0xff0000, 0xff9900, 0xff0099, 0x33ff00, 0x00ffff, 0x0066ff, 0xcc00ff, 0x3300ff]));
    v.push(Base16Scheme::new("macintosh", "Macintosh", vec![0x000000, 0x404040, 0x404040, 0x808080, 0x808080, 0xc0c0c0, 0xc0c0c0, 0xffffff, 0xdd0907, 0xff6403, 0xfbf305, 0x1fb714, 0x02abea, 0x0000d3, 0x4700a5, 0x90713a]));
    assert(v@.map_values(|s: Base16Scheme| s@) =~= start.map_values(|s: Base16Scheme| s@) + table_part_4().map_values(
        |e: (Seq<char>, Seq<char>, Seq<u32>)| spec_scheme(e.0, e.1, e.2),
    ));
}

/// Appends entries 81 to 96 of the built-in table.
fn push_part_5(v: &mut Vec<Base16Scheme>)
    ensures
        final(v)@.map_values(|s: Base16Scheme| s@) == old(v)@.map_values(|s: Base16Scheme| s@) + table_part_5().map_values(
            |e: (Seq<char>, Seq<char>, Seq<u32>)| spec_scheme(e.0, e.1, e.2),
        ),
{
    reveal(table_part_5);
    let ghost start = v@;
    v.push(Base16Scheme::new("marrakesh", "Marrakesh", vec![0x201602, 0x302e00, 0x5f5b17, 0x6c6823, 0x86813b, 0x948e48, 0xccc37a, 0xfaf0a5, 0xc35359, 0xb36144, 0xa88339, 0x18974e, 0x75a738, 0x477ca1, 0x8868b3, 0xb3588e]));
    v.push(Base16Scheme::new("materia", "Materia", vec![0x263238, 0x2C393F, 0x37474F, 0x707880, 0xC9CCD3, 0xCDD3DE, 0xD5DBE5, 0xFFFFFF, 0xEC5F67, 0xEA9560, 0xFFCC00, 0x8BD649, 0x80CBC4, 0x89DDFF, 0x82AAFF, 0xEC5F67]));
    v.push(Base16Scheme::new("material-darker", "Material Darker", vec![0x212121, 0x303030, 0x353535, 0x4A4A4A, 0xB2CCD6, 0xEEFFFF, 0xEEFFFF, 0xFFFFFF, 0xF07178, 0xF78C6C, 0xFFCB6B, 0xC3E88D, 0x89DDFF, 0x82AAFF, 0xC792EA, 0xFF5370]));
    v.push(Base16Scheme::new("material-lighter", "Material Lighter", vec![0xFAFAFA, 0xE7EAEC, 0xCCEAE7, 0xCCD7DA, 0x8796B0, 0x80CBC4, 0x80CBC4, 0xFFFFFF, 0xFF5370, 0xF76D47, 0xFFB62C, 0x91B859, 0x39ADB5, 0x6182B8, 0x7C4DFF, 0xE53935]));
    v.push(Base16Scheme::new("material-palenight", "Material Palenight", vec![0x292D3E, 0x444267, 0x32374D, 0x676E95, 0x8796B0, 0x959DCB, 0x959DCB, 0xFFFFFF, 0xF07178, 0xF78C6C, 0xFFCB6B, 0xC3E88D, 0x89DDFF, 0x82AAFF, 0xC792EA, 0xFF5370]));
    v.push(Base16Scheme::new("material-vivid", "Material Vivid", vec![0x202124, 0x27292c, 0x323639, 0x44464d, 0x676c71, 0x80868b, 0x9e9e9e, 0xffffff, 0xf44336, 0xff9800, 0xffeb3b, 0x00e676, 0x00bcd4, 0x2196f3, 0x673ab7, 0x8d6e63]));
    v.push(Base16Scheme::new("material", "Material", vec![0x263238, 0x2E3C43, 0x314549, 0x546E7A, 0xB2CCD6, 0xEEFFFF, 0xEEFFFF, 0xFFFFFF, 0xF07178, 0xF78C6C, 0xFFCB6B, 0xC3E88D, 0x89DDFF, 0x82AAFF, 0xC792EA, 0xFF5370]));
    v.push(Base16Scheme::new("mellow-purple", "Mellow Purple", vec![0x1e0528, 0x1A092D, 0x331354, 0x320f55, 0x873582, 0xffeeff, 0xffeeff, 0xf8c0ff, 0x00d9e9, 0xaa00a3, 0x955ae7, 0x05cb0d, 0xb900b1, 0x550068, 0x8991bb, 0x4d6fff]));
    v.push(Base16Scheme::new("mexico-light", "Mexico Light", vec![0xf8f8f8, 0xe8e8e8, 0xd8d8d8, 0xb8b8b8, 0x585858, 0x383838, 0x282828, 0x181818, 0xab4642, 0xdc9656, 0xf79a0e, 0x538947, 0x4b8093, 0x7cafc2, 0x96609e, 0xa16946]));
    v.push(Base16Scheme::new("mocha", "Mocha", vec![0x3B3228, 0x534636, 0x645240, 0x7e705a, 0xb8afad, 0xd0c8c6, 0xe9e1dd, 0xf5eeeb, 0xcb6077, 0xd28b71, 0xf4bc87, 0xbeb55b, 0x7bbda4, 0x8ab3b5, 0xa89bb9, 0xbb9584]));
    v.push(Base16Scheme::new("monokai", "Monokai", vec![0x272822, 0x383830, 0x49483e, 0x75715e, 0xa59f85, 0xf8f8f2, 0xf5f4f1, 0xf9f8f5, 0xf92672, 0xfd971f, 0xf4bf75, 0xa6e22e, 0xa1efe4, 0x66d9ef, 0xae81ff, 0xcc6633]));
    v.push(Base16Scheme::new("nord", "Nord", vec![0x2E3440, 0x3B4252, 0x434C5E, 0x4C566A, 0xD8DEE9, 0xE5E9F0, 0xECEFF4, 0x8FBCBB, 0x88C0D0, 0x81A1C1, 0x5E81AC, 0xBF616A, 0xD08770, 0xEBCB8B, 0xA3BE8C, 0xB48EAD]));
    v.push(Base16Scheme::new("ocean", "Ocean", vec![0x2b303b, 0x343d46, 0x4f5b66, 0x65737e, 0xa7adba, 0xc0c5ce, 0xdfe1e8, 0xeff1f5, 0xbf616a, 0xd08770, 0xebcb8b, 0xa3be8c, 0x96b5b4, 0x8fa1b3, 0xb48ead, 0xab7967]));
    v.push(Base16Scheme::new("oceanicnext", "OceanicNext", vec![0x1B2B34, 0x343D46, 0x4F5B66, 0x65737E, 0xA7ADBA, 0xC0C5CE, 0xCDD3DE, 0xD8DEE9, 0xEC5F67, 0xF99157, 0xFAC863, 0x99C794, 0x5FB3B3, 0x6699CC, 0xC594C5, 0xAB7967]));
    v.push(Base16Scheme::new("one-light", "One Light", vec![0xfafafa, 0xf0f0f1, 0xe5e5e6, 0xa0a1a7, 0x696c77, 0x383a42, 0x202227, 0x090a0b, 0xca1243, 0xd75f00, 0xc18401, 0x50a14f, 0x0184bc, 0x4078f2, 0xa626a4, 0x986801]));
    v.push(Base16Scheme::new("onedark", "OneDark", vec![0x282c34, 0x353b45, 0x3e4451, 0x545862, 0x565c64, 0xabb2bf, 0xb6bdca, 0xc8ccd4, 0xe06c75, 0xd19a66, 0xe5c07b, 0x98c379, 0x56b6c2, 0x61afef, 0xc678dd, 0xbe5046]));
    assert(v@.map_values(|s: Base16Scheme| s@) =~= start.map_values(|s: Base16Scheme| s@) + table_part_5().map_values(
        |e: (Seq<char>, Seq<char>, Seq<u32>)| spec_scheme(e.0, e.1, e.2),
    ));
}

/// Appends entries 97 to 112 of the built-in table.
fn push_part_6(v: &mut Vec<Base16Scheme>)
    ensures
        final(v)@.map_values(|s: Base16Scheme| s@) == old(v)@.map_values(|s: Base16Scheme| s@) + table_part_6().map_values(
            |e: (Seq<char>, Seq<char>, Seq<u32>)| spec_scheme(e.0, e.1, e.2),
        ),
{
    reveal(table_part_6);
    let ghost start = v@;
    v.push(Base16Scheme::new("outrun-dark", "Outrun Dark", vec![0x00002A, 0x20204A, 0x30305A, 0x50507A, 0xB0B0DA, 0xD0D0FA, 0xE0E0FF, 0xF5F5FF, 0xFF4242, 0xFC8D28, 0xF3E877, 0x59F176, 0x0EF0F0, 0x66B0FF, 0xF10596, 0xF003EF]));
    v.push(Base16Scheme::new("papercolor-dark", "PaperColor Dark", vec![0x1c1c1c, 0xaf005f, 0x5faf00, 0xd7af5f, 0x5fafd7, 0x808080, 0xd7875f, 0xd0d0d0, 0x585858, 0x5faf5f, 0xafd700, 0xaf87d7, 0xffaf00, 0xff5faf, 0x00afaf, 0x5f8787]));
    v.push(Base16Scheme::new("papercolor-light", "PaperColor Light", vec![0xeeeeee, 0xaf0000, 0x008700, 0x5f8700, 0x0087af, 0x878787, 0x005f87, 0x444444, 0xbcbcbc, 0xd70000, 0xd70087, 0x8700af, 0xd75f00, 0xd75f00, 0x005faf, 0x005f87]));
    v.push(Base16Scheme::new("paraiso", "Paraiso", vec![0x2f1e2e, 0x41323f, 0x4f424c, 0x776e71, 0x8d8687, 0xa39e9b, 0xb9b6b0, 0xe7e9db, 0xef6155, 0xf99b15, 0xfec418, 0x48b685, 0x5bc4bf, 0x06b6ef, 0x815ba4, 0xe96ba8]));
    v.push(Base16Scheme::new("phd", "PhD", vec![0x061229, 0x2a3448, 0x4d5666, 0x717885, 0x9a99a3, 0xb8bbc2, 0xdbdde0, 0xffffff, 0xd07346, 0xf0a000, 0xfbd461, 0x99bf52, 0x72b9bf, 0x5299bf, 0x9989cc, 0xb08060]));
    v.push(Base16Scheme::new("pico", "Pico", vec![0x000000, 0x1d2b53, 0x7e2553, 0x008751, 0xab5236, 0x5f574f, 0xc2c3c7, 0xfff1e8, 0xff004d, 0xffa300, 0xfff024, 0x00e756, 0x29adff, 0x83769c, 0xff77a8, 0xffccaa]));
    v.push(Base16Scheme::new("pop", "Pop", vec![0x000000, 0x202020, 0x303030, 0x505050, 0xb0b0b0, 0xd0d0d0, 0xe0e0e0, 0xffffff, 0xeb008a, 0xf29333, 0xf8ca12, 0x37b349, 0x00aabb, 0x0e5a94, 0xb31e8d, 0x7a2d00]));
    v.push(Base16Scheme::new("porple", "Porple", vec![0x292c36, 0x333344, 0x474160, 0x65568a, 0xb8b8b8, 0xd8d8d8, 0xe8e8e8, 0xf8f8f8, 0xf84547, 0xd28e5d, 0xefa16b, 0x95c76f, 0x64878f, 0x8485ce, 0xb74989, 0x986841]));
    v.push(Base16Scheme::new("railscasts", "Railscasts", vec![0x2b2b2b, 0x272935, 0x3a4055, 0x5a647e, 0xd4cfc9, 0xe6e1dc, 0xf4f1ed, 0xf9f7f3, 0xda4939, 0xcc7833, 0xffc66d, 0xa5c261, 0x519f50, 0x6d9cbe, 0xb6b3eb, 0xbc9458]));
    v.push(Base16Scheme::new("rebecca", "Rebecca", vec![0x292a44, 0x663399, 0x383a62, 0x666699, 0xa0a0c5, 0xf1eff8, 0xccccff, 0x53495d, 0xa0a0c5, 0xefe4a1, 0xae81ff, 0x6dfedf, 0x8eaee0, 0x2de0a7, 0x7aa5ff, 0xff79c6]));
    v.push(Base16Scheme::new("seti", "Seti UI", vec![0x151718, 0x282a2b, 0x3B758C, 0x41535B, 0x43a5d5, 0xd6d6d6, 0xeeeeee, 0xffffff, 0xcd3f45, 0xdb7b55, 0xe6cd69, 0x9fca56, 0x55dbbe, 0x55b5db, 0xa074c4, 0x8a553f]));
    v.push(Base16Scheme::new("shapeshifter", "Shapeshifter", vec![0xf9f9f9, 0xe0e0e0, 0xababab, 0x555555, 0x343434, 0x102015, 0x040404, 0x000000, 0xe92f2f, 0xe09448, 0xdddd13, 0x0ed839, 0x23edda, 0x3b48e3, 0xf996e2, 0x69542d]));
    v.push(Base16Scheme::new("snazzy", "Snazzy", vec![0x282a36, 0x34353e, 0x43454f, 0x78787e, 0xa5a5a9, 0xe2e4e5, 0xeff0eb, 0xf1f1f0, 0xff5c57, 0xff9f43, 0xf3f99d, 0x5af78e, 0x9aedfe, 0x57c7ff, 0xff6ac1, 0xb2643c]));
    v.push(Base16Scheme::new("solarflare", "Solar Flare", vec![0x18262F, 0x222E38, 0x586875, 0x667581, 0x85939E, 0xA6AFB8, 0xE8E9ED, 0xF5F7FA, 0xEF5253, 0xE66B2B, 0xE4B51C, 0x7CC844, 0x52CBB0, 0x33B5E1, 0xA363D5, 0xD73C9A]));
    v.push(Base16Scheme::new("solarized-dark", "Solarized Dark", vec![0x002b36, 0x073642, 0x586e75, 0x657b83, 0x839496, 0x93a1a1, 0xeee8d5, 0xfdf6e3, 0xdc322f, 0xcb4b16, 0xb58900, 0x859900, 0x2aa198, 0x268bd2, 0x6c71c4, 0xd33682]));
    v.push(Base16Scheme::new("solarized-light", "Solarized Light", vec![0xfdf6e3, 0xeee8d5, 0x93a1a1, 0x839496, 0x657b83, 0x586e75, 0x073642, 0x002b36, 0xdc322f, 0xcb4b16, 0xb58900, 0x859900, 0x2aa198, 0x268bd2, 0x6c71c4, 0xd33682]));
    assert(v@.map_values(|s: Base16Scheme| s@) =~= start.map_values(|s: Base16Scheme| s@) + table_part_6().map_values(
        |e: (Seq<char>, Seq<char>, Seq<u32>)| spec_scheme(e.0, e.1, e.2),
    ));
}

/// Appends entries 113 to 125 of the built-in table.
fn push_part_7(v: &mut Vec<Base16Scheme>)
    ensures
        final(v)@.map_values(|s: Base16Scheme| s@) == old(v)@.map_values(|s: Base16Scheme| s@) + table_part_7().map_values(
            |e: (Seq<char>, Seq<char>, Seq<u32>)| spec_scheme(e.0, e.1, e.2),
        ),
{
    reveal(table_part_7);
    let ghost start = v@;
    v.push(Base16Scheme::new("spacemacs", "Spacemacs", vec![0x1f2022, 0x282828, 0x444155, 0x585858, 0xb8b8b8, 0xa3a3a3, 0xe8e8e8, 0xf8f8f8, 0xf2241f, 0xffa500, 0xb1951d, 0x67b11d, 0x2d9574, 0x4f97d7, 0xa31db1, 0xb03060]));
    v.push(Base16Scheme::new("summerfruit-dark", "Summerfruit Dark", vec![0x151515, 0x202020, 0x303030, 0x505050, 0xB0B0B0, 0xD0D0D0, 0xE0E0E0, 0xFFFFFF, 0xFF0086, 0xFD8900, 0xABA800, 0x00C918, 0x1FAAAA, 0x3777E6, 0xAD00A1, 0xCC6633]));
    v.push(Base16Scheme::new("summerfruit-light", "Summerfruit Light", vec![0xFFFFFF, 0xE0E0E0, 0xD0D0D0, 0xB0B0B0, 0x000000, 0x101010, 0x151515, 0x202020, 0xFF0086, 0xFD8900, 0xABA800, 0x00C918, 0x1FAAAA, 0x3777E6, 0xAD00A1, 0xCC6633]));
    v.push(Base16Scheme::new("synth-midnight-dark", "Synth Midnight", vec![0x040404, 0x141414, 0x242424, 0x61507A, 0xBFBBBF, 0xDFDBDF, 0xEFEBEF, 0xFFFBFF, 0xB53B50, 0xE4600E, 0xDAE84D, 0x06EA61, 0x7CEDE9, 0x03AEFF, 0xEA5CE2, 0x9D4D0E]));
    v.push(Base16Scheme::new("tomorrow-night", "Tomorrow Night", vec![0x1d1f21, 0x282a2e, 0x373b41, 0x969896, 0xb4b7b4, 0xc5c8c6, 0xe0e0e0, 0xffffff, 0xcc6666, 0xde935f, 0xf0c674, 0xb5bd68, 0x8abeb7, 0x81a2be, 0xb294bb, 0xa3685a]));
    v.push(Base16Scheme::new("tomorrow", "Tomorrow", vec![0xffffff, 0xe0e0e0, 0xd6d6d6, 0x8e908c, 0x969896, 0x4d4d4c, 0x282a2e, 0x1d1f21, 0xc82829, 0xf5871f, 0xeab700, 0x718c00, 0x3e999f, 0x4271ae, 0x8959a8, 0xa3685a]));
    v.push(Base16Scheme::new("tube", "London Tube", vec![0x231f20, 0x1c3f95, 0x5a5758, 0x737171, 0x959ca1, 0xd9d8d8, 0xe7e7e8, 0xffffff, 0xee2e24, 0xf386a1, 0xffd204, 0x00853e, 0x85cebc, 0x009ddc, 0x98005d, 0xb06110]));
    v.push(Base16Scheme::new("twilight", "Twilight", vec![0x1e1e1e, 0x323537, 0x464b50, 0x5f5a60, 0x838184, 0xa7a7a7, 0xc3c3c3, 0xffffff, 0xcf6a4c, 0xcda869, 0xf9ee98, 0x8f9d6a, 0xafc4db, 0x7587a6, 0x9b859d, 0x9b703f]));
    v.push(Base16Scheme::new("unikitty-dark", "Unikitty Dark", vec![0x2e2a31, 0x4a464d, 0x666369, 0x838085, 0x9f9da2, 0xbcbabe, 0xd8d7da, 0xf5f4f7, 0xd8137f, 0xd65407, 0xdc8a0e, 0x17ad98, 0x149bda, 0x796af5, 0xbb60ea, 0xc720ca]));
    v.push(Base16Scheme::new("unikitty-light", "Unikitty Light", vec![0xffffff, 0xe1e1e2, 0xc4c3c5, 0xa7a5a8, 0x89878b, 0x6c696e, 0x4f4b51, 0x322d34, 0xd8137f, 0xd65407, 0xdc8a0e, 0x17ad98, 0x149bda, 0x775dff, 0xaa17e6, 0xe013d0]));
    v.push(Base16Scheme::new("woodland", "Woodland", vec![0x231e18, 0x302b25, 0x48413a, 0x9d8b70, 0xb4a490, 0xcabcb1, 0xd7c8bc, 0xe4d4c8, 0xd35c5c, 0xca7f32, 0xe0ac16, 0xb7ba53, 0x6eb958, 0x88a4d3, 0xbb90e2, 0xb49368]));
    v.push(Base16Scheme::new("xcode-dusk", "XCode Dusk", vec![0x282B35, 0x3D4048, 0x53555D, 0x686A71, 0x7E8086, 0x939599, 0xA9AAAE, 0xBEBFC2, 0xB21889, 0x786DC5, 0x438288, 0xDF0002, 0x00A0BE, 0x790EAD, 0xB21889, 0xC77C48]));
    v.push(Base16Scheme::new("zenburn", "Zenburn", vec![0x383838, 0x404040, 0x606060, 0x6f6f6f, 0x808080, 0xdcdccc, 0xc0c0c0, 0xffffff, 0xdca3a3, 0xdfaf8f, 0xe0cf9f, 0x5f7f5f, 0x93e0e3, 0x7cb8bb, 0xdc8cc3, 0x000000]));
    assert(v@.map_values(|s: Base16Scheme| s@) =~= start.map_values(|s: Base16Scheme| s@) + table_part_7().map_values(
        |e: (Seq<char>, Seq<char>, Seq<u32>)| spec_scheme(e.0, e.1, e.2),
    ));
}

/// The built-in schemes, in table order.
pub fn create_schemes() -> (r: Vec<Base16Scheme>)
    ensures
        r@.map_values(|s: Base16Scheme| s@) == spec_builtin(),
{
    let mut v: Vec<Base16Scheme> = Vec::new();
    push_part_0(&mut v);
    push_part_1(&mut v);
    push_part_2(&mut v);
    push_part_3(&mut v);
    push_part_4(&mut v);
    push_part_5(&mut v);
    push_part_6(&mut v);
    push_part_7(&mut v);
    assert(v@.map_values(|s: Base16Scheme| s@) =~= spec_builtin());
    v
}

/// Every slug of entries 1 to 16 lies between `3024` and `zenburn`.
proof fn lemma_part_0_bounds()
    ensures
        all_in_bounds(table_part_0()),
        table_part_0().len() > 0,
        table_part_0()[0].0 == "3024"@,
{
    reveal(table_part_0);
    reveal_strlit("3024");
    reveal_strlit("apathy");
    reveal_strlit("ashes");
    reveal_strlit("atelier-cave");
    reveal_strlit("atelier-cave-light");
    reveal_strlit("atelier-dune");
    reveal_strlit("atelier-dune-light");
    reveal_strlit("atelier-estuary");
    reveal_strlit("atelier-estuary-light");
    reveal_strlit("atelier-forest");
    reveal_strlit("atelier-forest-light");
    reveal_strlit("atelier-heath");
    reveal_strlit("atelier-heath-light");
    reveal_strlit("atelier-lakeside");
    reveal_strlit("atelier-lakeside-light");
    reveal_strlit("atelier-plateau-light");
    reveal_strlit("zenburn");
    lemma_text_le_refl("3024"@);
    lemma_text_le_refl("zenburn"@);
}

/// Every slug of entries 17 to 32 lies between `3024` and `zenburn`.
proof fn lemma_part_1_bounds()
    ensures
        all_in_bounds(table_part_1()),
{
    reveal(table_part_1);
    reveal_strlit("3024");
    reveal_strlit("atelier-plateau");
    reveal_strlit("atelier-savanna");
    reveal_strlit("atelier-savanna-light");
    reveal_strlit("atelier-seaside");
    reveal_strlit("atelier-seaside-light");
    reveal_strlit("atelier-sulphurpool");
    reveal_strlit("atelier-sulphurpool-light");
    reveal_strlit("atlas");
    reveal_strlit("bespin");
    reveal_strlit("black-metal-bathory");
    reveal_strlit("black-metal-burzum");
    reveal_strlit("black-metal-dark-funeral");
    reveal_strlit("black-metal-gorgoroth");
    reveal_strlit("black-metal-immortal");
    reveal_strlit("black-metal-khold");
    reveal_strlit("black-metal-marduk");
    reveal_strlit("zenburn");
    lemma_text_le_refl("3024"@);
    lemma_text_le_refl("zenburn"@);
}

/// Every slug of entries 33 to 48 lies between `3024` and `zenburn`.
proof fn lemma_part_2_bounds()
    ensures
        all_in_bounds(table_part_2()),
{
    reveal(table_part_2);
    reveal_strlit("3024");
    reveal_strlit("black-metal");
    reveal_strlit("black-metal-mayhem");
    reveal_strlit("black-metal-nile");
    reveal_strlit("black-metal-venom");
    reveal_strlit("brewer");
    reveal_strlit("bright");
    reveal_strlit("brogrammer");
    reveal_strlit("brushtrees");
    reveal_strlit("brushtrees-dark");
    reveal_strlit("chalk");
    reveal_strlit("circus");
    reveal_strlit("classic-dark");
    reveal_strlit("classic-light");
    reveal_strlit("codeschool");
    reveal_strlit("cupcake");
    reveal_strlit("cupertino");
    reveal_strlit("zenburn");
    lemma_text_le_refl("3024"@);
    lemma_text_le_refl("zenburn"@);
}

/// Every slug of entries 49 to 64 lies between `3024` and `zenburn`.
proof fn lemma_part_3_bounds()
    ensures
        all_in_bounds(table_part_3()),
{
    reveal(table_part_3);
    reveal_strlit("3024");
    reveal_strlit("darktooth");
    reveal_strlit("default-dark");
    reveal_strlit("default-light");
    reveal_strlit("dracula");
    reveal_strlit("eighties");
    reveal_strlit("embers");
    reveal_strlit("flat");
    reveal_strlit("fruit-soda");
    reveal_strlit("github");
    reveal_strlit("google-dark");
    reveal_strlit("google-light");
    reveal_strlit("grayscale-dark");
    reveal_strlit("grayscale-light");
    reveal_strlit("greenscreen");
    reveal_strlit("gruvbox-dark-hard");
    reveal_strlit("gruvbox-dark-medium");
    reveal_strlit("zenburn");
    lemma_text_le_refl("3024"@);
    lemma_text_le_refl("zenburn"@);
}

/// Every slug of entries 65 to 80 lies between `3024` and `zenburn`.
proof fn lemma_part_4_bounds()
    ensures
        all_in_bounds(table_part_4()),
{
    reveal(table_part_4);
    reveal_strlit("3024");
    reveal_strlit("gruvbox-dark-pale");
    reveal_strlit("gruvbox-dark-soft");
    reveal_strlit("gruvbox-light-hard");
    reveal_strlit("gruvbox-light-medium");
    reveal_strlit("gruvbox-light-soft");
    reveal_strlit("harmonic-dark");
    reveal_strlit("harmonic-light");
    reveal_strlit("heetch");
    reveal_strlit("heetch-light");
    reveal_strlit("hopscotch");
    reveal_strlit("ia-dark");
    reveal_strlit("ia-light");
    reveal_strlit("icy");
    reveal_strlit("irblack");
    reveal_strlit("isotope");
    reveal_strlit("macintosh");
    reveal_strlit("zenburn");
    lemma_text_le_refl("3024"@);
    lemma_text_le_refl("zenburn"@);
}

/// Every slug of entries 81 to 96 lies between `3024` and `zenburn`.
proof fn lemma_part_5_bounds()
    ensures
        all_in_bounds(table_part_5()),
{
    reveal(table_part_5);
    reveal_strlit("3024");
    reveal_strlit("marrakesh");
    reveal_strlit("materia");
    reveal_strlit("material");
    reveal_strlit("material-darker");
    reveal_strlit("material-lighter");
    reveal_strlit("material-palenight");
    reveal_strlit("material-vivid");
    reveal_strlit("mellow-purple");
    reveal_strlit("mexico-light");
    reveal_strlit("mocha");
    reveal_strlit("monokai");
    reveal_strlit("nord");
    reveal_strlit("ocean");
    reveal_strlit("oceanicnext");
    reveal_strlit("one-light");
    reveal_strlit("onedark");
    reveal_strlit("zenburn");
    lemma_text_le_refl("3024"@);
    lemma_text_le_refl("zenburn"@);
}

/// Every slug of entries 97 to 112 lies between `3024` and `zenburn`.
proof fn lemma_part_6_bounds()
    ensures
        all_in_bounds(table_part_6()),
{
    reveal(table_part_6);
    reveal_strlit("3024");
    reveal_strlit("outrun-dark");
    reveal_strlit("papercolor-dark");
    reveal_strlit("papercolor-light");
    reveal_strlit("paraiso");
    reveal_strlit("phd");
    reveal_strlit("pico");
    reveal_strlit("pop");
    reveal_strlit("porple");
    reveal_strlit("railscasts");
    reveal_strlit("rebecca");
    reveal_strlit("seti");
    reveal_strlit("shapeshifter");
    reveal_strlit("snazzy");
    reveal_strlit("solarflare");
    reveal_strlit("solarized-dark");
    reveal_strlit("solarized-light");
    reveal_strlit("zenburn");
    lemma_text_le_refl("3024"@);
    lemma_text_le_refl("zenburn"@);
}

/// Every slug of entries 113 to 125 lies between `3024` and `zenburn`.
proof fn lemma_part_7_bounds()
    ensures
        all_in_bounds(table_part_7()),
        table_part_7().len() > 0,
        table_part_7()[table_part_7().len() - 1].0 == "zenburn"@,
{
    reveal(table_part_7);
    reveal_strlit("3024");
    reveal_strlit("spacemacs");
    reveal_strlit("summerfruit-dark");
    reveal_strlit("summerfruit-light");
    reveal_strlit("synth-midnight-dark");
    reveal_strlit("tomorrow");
    reveal_strlit("tomorrow-night");
    reveal_strlit("tube");
    reveal_strlit("twilight");
    reveal_strlit("unikitty-dark");
    reveal_strlit("unikitty-light");
    reveal_strlit("woodland");
    reveal_strlit("xcode-dusk");
    reveal_strlit("zenburn");
    lemma_text_le_refl("3024"@);
    lemma_text_le_refl("zenburn"@);
}

/// `s` lies between `3024` and `zenburn`.
pub open spec fn slug_in_bounds(s: Seq<char>) -> bool {
    text_le("3024"@, s) && text_le(s, "zenburn"@)
}

/// Every slug of the entries `e` lies between `3024` and `zenburn`.
pub open spec fn all_in_bounds(e: Seq<(Seq<char>, Seq<char>, Seq<u32>)>) -> bool {
    forall|i: int| 0 <= i < e.len() ==> slug_in_bounds(#[trigger] e[i].0)
}

proof fn lemma_bounds_concat(a: Seq<(Seq<char>, Seq<char>, Seq<u32>)>, b: Seq<(Seq<char>, Seq<char>, Seq<u32>)>)
    requires
        all_in_bounds(a),
        all_in_bounds(b),
    ensures
        all_in_bounds(a + b),
        a.len() > 0 ==> (a + b)[0] == a[0],
        b.len() > 0 ==> (a + b)[(a + b).len() - 1] == b[b.len() - 1],
{
    assert forall|i: int| 0 <= i < (a + b).len() implies slug_in_bounds(#[trigger] (a + b)[i].0) by {
        if i < a.len() {
            assert((a + b)[i] == a[i]);
        } else {
            assert((a + b)[i] == b[i - a.len()]);
        }
    }
}

/// Every built-in slug lies between `3024`, the first entry, and
/// `zenburn`, the last one.
pub proof fn lemma_builtin_bounds()
    ensures
        spec_builtin().len() > 0,
        spec_builtin()[0].slug == "3024"@,
        spec_builtin()[spec_builtin().len() - 1].slug == "zenburn"@,
        forall|i: int| 0 <= i < spec_builtin().len() ==> slug_in_bounds(#[trigger] spec_builtin()[i].slug),
{
    lemma_part_0_bounds();
    lemma_part_1_bounds();
    lemma_part_2_bounds();
    lemma_part_3_bounds();
    lemma_part_4_bounds();
    lemma_part_5_bounds();
    lemma_part_6_bounds();
    lemma_part_7_bounds();
    let s1 = table_part_0() + table_part_1();
    lemma_bounds_concat(table_part_0(), table_part_1());
    let s2 = s1 + table_part_2();
    lemma_bounds_concat(s1, table_part_2());
    let s3 = s2 + table_part_3();
    lemma_bounds_concat(s2, table_part_3());
    let s4 = s3 + table_part_4();
    lemma_bounds_concat(s3, table_part_4());
    let s5 = s4 + table_part_5();
    lemma_bounds_concat(s4, table_part_5());
    let s6 = s5 + table_part_6();
    lemma_bounds_concat(s5, table_part_6());
    let e = s6 + table_part_7();
    lemma_bounds_concat(s6, table_part_7());
    assert(e == spec_builtin_entries());
    assert forall|i: int| 0 <= i < spec_builtin().len() implies slug_in_bounds(#[trigger] spec_builtin()[i].slug) by {
        assert(spec_builtin()[i].slug == e[i].0);
    }
}

} // verus!
