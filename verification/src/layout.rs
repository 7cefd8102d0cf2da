//! Layout tables: name-to-offset resolution for each block kind's fields.
//!
//! Each block kind has a declarative sequence of fields with fixed widths;
//! widths accumulate, so one field's end is the next field's start.  For
//! each field the table offers two zero-argument functions that yield the
//! field's absolute start and end offsets relative to the block's start
//! (or to the enclosing record's start for the nested Part layouts).  A
//! consumer may query any field by name without tracking a cursor.

use vstd::prelude::*;

verus! {

/// Field offsets of the BlockGeneric layout.
pub struct BlockLayoutGeneric;

impl BlockLayoutGeneric {
    /// Start of the `BlockSize` field.
    pub fn block_size_start() -> (r: usize)
        ensures
            r == 0x0,
    {
        0x0
    }

    /// End of the `BlockSize` field.
    pub fn block_size_end() -> (r: usize)
        ensures
            r == 0x4,
    {
        0x4
    }

    /// Start of the `BlockType` field.
    pub fn block_type_start() -> (r: usize)
        ensures
            r == 0x4,
    {
        0x4
    }

    /// End of the `BlockType` field.
    pub fn block_type_end() -> (r: usize)
        ensures
            r == 0x8,
    {
        0x8
    }

    /// Start of the `BlockID` field.
    pub fn block_id_start() -> (r: usize)
        ensures
            r == 0x8,
    {
        0x8
    }

    /// End of the `BlockID` field.
    pub fn block_id_end() -> (r: usize)
        ensures
            r == 0xc,
    {
        0xc
    }

    /// Start of the `Filler0` field.
    pub fn filler0_start() -> (r: usize)
        ensures
            r == 0xc,
    {
        0xc
    }

    /// End of the `Filler0` field.
    pub fn filler0_end() -> (r: usize)
        ensures
            r == 0x10,
    {
        0x10
    }

}

/// Field offsets of the StackData layout.
pub struct StackDataLayout;

impl StackDataLayout {
    /// Start of the `BlockSize` field.
    pub fn block_size_start() -> (r: usize)
        ensures
            r == 0x0,
    {
        0x0
    }

    /// End of the `BlockSize` field.
    pub fn block_size_end() -> (r: usize)
        ensures
            r == 0x4,
    {
        0x4
    }

    /// Start of the `BlockType` field.
    pub fn block_type_start() -> (r: usize)
        ensures
            r == 0x4,
    {
        0x4
    }

    /// End of the `BlockType` field.
    pub fn block_type_end() -> (r: usize)
        ensures
            r == 0x8,
    {
        0x8
    }

    /// Start of the `BlockID` field.
    pub fn block_id_start() -> (r: usize)
        ensures
            r == 0x8,
    {
        0x8
    }

    /// End of the `BlockID` field.
    pub fn block_id_end() -> (r: usize)
        ensures
            r == 0xc,
    {
        0xc
    }

    /// Start of the `Filler0` field.
    pub fn filler0_start() -> (r: usize)
        ensures
            r == 0xc,
    {
        0xc
    }

    /// End of the `Filler0` field.
    pub fn filler0_end() -> (r: usize)
        ensures
            r == 0x10,
    {
        0x10
    }

    /// Start of the `HyperCardFormat` field.
    pub fn hyper_card_format_start() -> (r: usize)
        ensures
            r == 0x10,
    {
        0x10
    }

    /// End of the `HyperCardFormat` field.
    pub fn hyper_card_format_end() -> (r: usize)
        ensures
            r == 0x14,
    {
        0x14
    }

    /// Start of the `DataFork` field.
    pub fn data_fork_start() -> (r: usize)
        ensures
            r == 0x14,
    {
        0x14
    }

    /// End of the `DataFork` field.
    pub fn data_fork_end() -> (r: usize)
        ensures
            r == 0x18,
    {
        0x18
    }

    /// Start of the `BlockSize2` field.
    pub fn block_size2_start() -> (r: usize)
        ensures
            r == 0x18,
    {
        0x18
    }

    /// End of the `BlockSize2` field.
    pub fn block_size2_end() -> (r: usize)
        ensures
            r == 0x1c,
    {
        0x1c
    }

    /// Start of the `Unk1` field.
    pub fn unk1_start() -> (r: usize)
        ensures
            r == 0x1c,
    {
        0x1c
    }

    /// End of the `Unk1` field.
    pub fn unk1_end() -> (r: usize)
        ensures
            r == 0x20,
    {
        0x20
    }

    /// Start of the `MaximumEver` field.
    pub fn maximum_ever_start() -> (r: usize)
        ensures
            r == 0x20,
    {
        0x20
    }

    /// End of the `MaximumEver` field.
    pub fn maximum_ever_end() -> (r: usize)
        ensures
            r == 0x24,
    {
        0x24
    }

    /// Start of the `BackgroundNum` field.
    pub fn background_num_start() -> (r: usize)
        ensures
            r == 0x24,
    {
        0x24
    }

    /// End of the `BackgroundNum` field.
    pub fn background_num_end() -> (r: usize)
        ensures
            r == 0x28,
    {
        0x28
    }

    /// Start of the `FirstBackgroundID` field.
    pub fn first_background_id_start() -> (r: usize)
        ensures
            r == 0x28,
    {
        0x28
    }

    /// End of the `FirstBackgroundID` field.
    pub fn first_background_id_end() -> (r: usize)
        ensures
            r == 0x2c,
    {
        0x2c
    }

    /// Start of the `CardNum` field.
    pub fn card_num_start() -> (r: usize)
        ensures
            r == 0x2c,
    {
        0x2c
    }

    /// End of the `CardNum` field.
    pub fn card_num_end() -> (r: usize)
        ensures
            r == 0x30,
    {
        0x30
    }

    /// Start of the `FirstCardID` field.
    pub fn first_card_id_start() -> (r: usize)
        ensures
            r == 0x30,
    {
        0x30
    }

    /// End of the `FirstCardID` field.
    pub fn first_card_id_end() -> (r: usize)
        ensures
            r == 0x34,
    {
        0x34
    }

    /// Start of the `ListID` field.
    pub fn list_id_start() -> (r: usize)
        ensures
            r == 0x34,
    {
        0x34
    }

    /// End of the `ListID` field.
    pub fn list_id_end() -> (r: usize)
        ensures
            r == 0x38,
    {
        0x38
    }

    /// Start of the `FreeBlockNum` field.
    pub fn free_block_num_start() -> (r: usize)
        ensures
            r == 0x38,
    {
        0x38
    }

    /// End of the `FreeBlockNum` field.
    pub fn free_block_num_end() -> (r: usize)
        ensures
            r == 0x3c,
    {
        0x3c
    }

    /// Start of the `FreeBlockSize` field.
    pub fn free_block_size_start() -> (r: usize)
        ensures
            r == 0x3c,
    {
        0x3c
    }

    /// End of the `FreeBlockSize` field.
    pub fn free_block_size_end() -> (r: usize)
        ensures
            r == 0x40,
    {
        0x40
    }

    /// Start of the `PrintBlockID` field.
    pub fn print_block_id_start() -> (r: usize)
        ensures
            r == 0x40,
    {
        0x40
    }

    /// End of the `PrintBlockID` field.
    pub fn print_block_id_end() -> (r: usize)
        ensures
            r == 0x44,
    {
        0x44
    }

    /// Start of the `PasswordHash` field.
    pub fn password_hash_start() -> (r: usize)
        ensures
            r == 0x44,
    {
        0x44
    }

    /// End of the `PasswordHash` field.
    pub fn password_hash_end() -> (r: usize)
        ensures
            r == 0x48,
    {
        0x48
    }

    /// Start of the `UserLevel` field.
    pub fn user_level_start() -> (r: usize)
        ensures
            r == 0x48,
    {
        0x48
    }

    /// End of the `UserLevel` field.
    pub fn user_level_end() -> (r: usize)
        ensures
            r == 0x4a,
    {
        0x4a
    }

    /// Start of the `ProtAlignmentShortOne` field.
    pub fn prot_alignment_short_one_start() -> (r: usize)
        ensures
            r == 0x4a,
    {
        0x4a
    }

    /// End of the `ProtAlignmentShortOne` field.
    pub fn prot_alignment_short_one_end() -> (r: usize)
        ensures
            r == 0x4c,
    {
        0x4c
    }

    /// Start of the `ProtFlags` field.
    pub fn prot_flags_start() -> (r: usize)
        ensures
            r == 0x4c,
    {
        0x4c
    }

    /// End of the `ProtFlags` field.
    pub fn prot_flags_end() -> (r: usize)
        ensures
            r == 0x4e,
    {
        0x4e
    }

    /// Start of the `ProtAlignmentShortEnd` field.
    pub fn prot_alignment_short_end_start() -> (r: usize)
        ensures
            r == 0x4e,
    {
        0x4e
    }

    /// End of the `ProtAlignmentShortEnd` field.
    pub fn prot_alignment_short_end_end() -> (r: usize)
        ensures
            r == 0x50,
    {
        0x50
    }

    /// Start of the `SkipAhead16` field.
    pub fn skip_ahead16_start() -> (r: usize)
        ensures
            r == 0x50,
    {
        0x50
    }

    /// End of the `SkipAhead16` field.
    pub fn skip_ahead16_end() -> (r: usize)
        ensures
            r == 0x60,
    {
        0x60
    }

    /// Start of the `HyperCardVersionAtCreation` field.
    pub fn hyper_card_version_at_creation_start() -> (r: usize)
        ensures
            r == 0x60,
    {
        0x60
    }

    /// End of the `HyperCardVersionAtCreation` field.
    pub fn hyper_card_version_at_creation_end() -> (r: usize)
        ensures
            r == 0x64,
    {
        0x64
    }

    /// Start of the `HyperCardVersionAtLastCompacting` field.
    pub fn hyper_card_version_at_last_compacting_start() -> (r: usize)
        ensures
            r == 0x64,
    {
        0x64
    }

    /// End of the `HyperCardVersionAtLastCompacting` field.
    pub fn hyper_card_version_at_last_compacting_end() -> (r: usize)
        ensures
            r == 0x68,
    {
        0x68
    }

    /// Start of the `HyperCardVersionAtLastModificationSinceLastCompacting` field.
    pub fn hyper_card_version_at_last_modification_since_last_compacting_start() -> (r: usize)
        ensures
            r == 0x68,
    {
        0x68
    }

    /// End of the `HyperCardVersionAtLastModificationSinceLastCompacting` field.
    pub fn hyper_card_version_at_last_modification_since_last_compacting_end() -> (r: usize)
        ensures
            r == 0x6c,
    {
        0x6c
    }

    /// Start of the `HyperCardVersionAtLastModification` field.
    pub fn hyper_card_version_at_last_modification_start() -> (r: usize)
        ensures
            r == 0x6c,
    {
        0x6c
    }

    /// End of the `HyperCardVersionAtLastModification` field.
    pub fn hyper_card_version_at_last_modification_end() -> (r: usize)
        ensures
            r == 0x70,
    {
        0x70
    }

    /// Start of the `Checksum` field.
    pub fn checksum_start() -> (r: usize)
        ensures
            r == 0x70,
    {
        0x70
    }

    /// End of the `Checksum` field.
    pub fn checksum_end() -> (r: usize)
        ensures
            r == 0x74,
    {
        0x74
    }

    /// Start of the `MarkedCardNum` field.
    pub fn marked_card_num_start() -> (r: usize)
        ensures
            r == 0x74,
    {
        0x74
    }

    /// End of the `MarkedCardNum` field.
    pub fn marked_card_num_end() -> (r: usize)
        ensures
            r == 0x78,
    {
        0x78
    }

    /// Start of the `CardWindowTop` field.
    pub fn card_window_top_start() -> (r: usize)
        ensures
            r == 0x78,
    {
        0x78
    }

    /// End of the `CardWindowTop` field.
    pub fn card_window_top_end() -> (r: usize)
        ensures
            r == 0x7a,
    {
        0x7a
    }

    /// Start of the `CardWindowLeft` field.
    pub fn card_window_left_start() -> (r: usize)
        ensures
            r == 0x7a,
    {
        0x7a
    }

    /// End of the `CardWindowLeft` field.
    pub fn card_window_left_end() -> (r: usize)
        ensures
            r == 0x7c,
    {
        0x7c
    }

    /// Start of the `CardWindowBottom` field.
    pub fn card_window_bottom_start() -> (r: usize)
        ensures
            r == 0x7c,
    {
        0x7c
    }

    /// End of the `CardWindowBottom` field.
    pub fn card_window_bottom_end() -> (r: usize)
        ensures
            r == 0x7e,
    {
        0x7e
    }

    /// Start of the `CardWindowRight` field.
    pub fn card_window_right_start() -> (r: usize)
        ensures
            r == 0x7e,
    {
        0x7e
    }

    /// End of the `CardWindowRight` field.
    pub fn card_window_right_end() -> (r: usize)
        ensures
            r == 0x80,
    {
        0x80
    }

    /// Start of the `ScreenTop` field.
    pub fn screen_top_start() -> (r: usize)
        ensures
            r == 0x80,
    {
        0x80
    }

    /// End of the `ScreenTop` field.
    pub fn screen_top_end() -> (r: usize)
        ensures
            r == 0x82,
    {
        0x82
    }

    /// Start of the `ScreenLeft` field.
    pub fn screen_left_start() -> (r: usize)
        ensures
            r == 0x82,
    {
        0x82
    }

    /// End of the `ScreenLeft` field.
    pub fn screen_left_end() -> (r: usize)
        ensures
            r == 0x84,
    {
        0x84
    }

    /// Start of the `ScreenBottom` field.
    pub fn screen_bottom_start() -> (r: usize)
        ensures
            r == 0x84,
    {
        0x84
    }

    /// End of the `ScreenBottom` field.
    pub fn screen_bottom_end() -> (r: usize)
        ensures
            r == 0x86,
    {
        0x86
    }

    /// Start of the `ScreenRight` field.
    pub fn screen_right_start() -> (r: usize)
        ensures
            r == 0x86,
    {
        0x86
    }

    /// End of the `ScreenRight` field.
    pub fn screen_right_end() -> (r: usize)
        ensures
            r == 0x88,
    {
        0x88
    }

    /// Start of the `XCoord` field.
    pub fn x_coord_start() -> (r: usize)
        ensures
            r == 0x88,
    {
        0x88
    }

    /// End of the `XCoord` field.
    pub fn x_coord_end() -> (r: usize)
        ensures
            r == 0x8a,
    {
        0x8a
    }

    /// Start of the `YCoord` field.
    pub fn y_coord_start() -> (r: usize)
        ensures
            r == 0x8a,
    {
        0x8a
    }

    /// End of the `YCoord` field.
    pub fn y_coord_end() -> (r: usize)
        ensures
            r == 0x8c,
    {
        0x8c
    }

    /// Start of the `Unk2` field.
    pub fn unk2_start() -> (r: usize)
        ensures
            r == 0x8c,
    {
        0x8c
    }

    /// End of the `Unk2` field.
    pub fn unk2_end() -> (r: usize)
        ensures
            r == 0x8e,
    {
        0x8e
    }

    /// Start of the `Unk3` field.
    pub fn unk3_start() -> (r: usize)
        ensures
            r == 0x8e,
    {
        0x8e
    }

    /// End of the `Unk3` field.
    pub fn unk3_end() -> (r: usize)
        ensures
            r == 0x90,
    {
        0x90
    }

    /// Start of the `SkipAhead288` field.
    pub fn skip_ahead288_start() -> (r: usize)
        ensures
            r == 0x90,
    {
        0x90
    }

    /// End of the `SkipAhead288` field.
    pub fn skip_ahead288_end() -> (r: usize)
        ensures
            r == 0x1b0,
    {
        0x1b0
    }

    /// Start of the `FontTableID` field.
    pub fn font_table_id_start() -> (r: usize)
        ensures
            r == 0x1b0,
    {
        0x1b0
    }

    /// End of the `FontTableID` field.
    pub fn font_table_id_end() -> (r: usize)
        ensures
            r == 0x1b4,
    {
        0x1b4
    }

    /// Start of the `StyleTableID` field.
    pub fn style_table_id_start() -> (r: usize)
        ensures
            r == 0x1b4,
    {
        0x1b4
    }

    /// End of the `StyleTableID` field.
    pub fn style_table_id_end() -> (r: usize)
        ensures
            r == 0x1b8,
    {
        0x1b8
    }

    /// Start of the `Height` field.
    pub fn height_start() -> (r: usize)
        ensures
            r == 0x1b8,
    {
        0x1b8
    }

    /// End of the `Height` field.
    pub fn height_end() -> (r: usize)
        ensures
            r == 0x1ba,
    {
        0x1ba
    }

    /// Start of the `Width` field.
    pub fn width_start() -> (r: usize)
        ensures
            r == 0x1ba,
    {
        0x1ba
    }

    /// End of the `Width` field.
    pub fn width_end() -> (r: usize)
        ensures
            r == 0x1bc,
    {
        0x1bc
    }

    /// Start of the `Unk4` field.
    pub fn unk4_start() -> (r: usize)
        ensures
            r == 0x1bc,
    {
        0x1bc
    }

    /// End of the `Unk4` field.
    pub fn unk4_end() -> (r: usize)
        ensures
            r == 0x1be,
    {
        0x1be
    }

    /// Start of the `Unk5` field.
    pub fn unk5_start() -> (r: usize)
        ensures
            r == 0x1be,
    {
        0x1be
    }

    /// End of the `Unk5` field.
    pub fn unk5_end() -> (r: usize)
        ensures
            r == 0x1c0,
    {
        0x1c0
    }

    /// Start of the `SkipAhead256` field.
    pub fn skip_ahead256_start() -> (r: usize)
        ensures
            r == 0x1c0,
    {
        0x1c0
    }

    /// End of the `SkipAhead256` field.
    pub fn skip_ahead256_end() -> (r: usize)
        ensures
            r == 0x2c0,
    {
        0x2c0
    }

    /// Start of the `PatternTable` field.
    pub fn pattern_table_start() -> (r: usize)
        ensures
            r == 0x2c0,
    {
        0x2c0
    }

    /// End of the `PatternTable` field.
    pub fn pattern_table_end() -> (r: usize)
        ensures
            r == 0x400,
    {
        0x400
    }

}

/// Field offsets of the Bitmap layout.
pub struct BitmapLayout;

impl BitmapLayout {
    /// Start of the `BlockSize` field.
    pub fn block_size_start() -> (r: usize)
        ensures
            r == 0x0,
    {
        0x0
    }

    /// End of the `BlockSize` field.
    pub fn block_size_end() -> (r: usize)
        ensures
            r == 0x4,
    {
        0x4
    }

    /// Start of the `BlockType` field.
    pub fn block_type_start() -> (r: usize)
        ensures
            r == 0x4,
    {
        0x4
    }

    /// End of the `BlockType` field.
    pub fn block_type_end() -> (r: usize)
        ensures
            r == 0x8,
    {
        0x8
    }

    /// Start of the `BlockID` field.
    pub fn block_id_start() -> (r: usize)
        ensures
            r == 0x8,
    {
        0x8
    }

    /// End of the `BlockID` field.
    pub fn block_id_end() -> (r: usize)
        ensures
            r == 0xc,
    {
        0xc
    }

    /// Start of the `Filler0` field.
    pub fn filler0_start() -> (r: usize)
        ensures
            r == 0xc,
    {
        0xc
    }

    /// End of the `Filler0` field.
    pub fn filler0_end() -> (r: usize)
        ensures
            r == 0x10,
    {
        0x10
    }

    /// Start of the `UnknownGroup` field.
    pub fn unknown_group_start() -> (r: usize)
        ensures
            r == 0x10,
    {
        0x10
    }

    /// End of the `UnknownGroup` field.
    pub fn unknown_group_end() -> (r: usize)
        ensures
            r == 0x18,
    {
        0x18
    }

    /// Start of the `CardTop` field.
    pub fn card_top_start() -> (r: usize)
        ensures
            r == 0x18,
    {
        0x18
    }

    /// End of the `CardTop` field.
    pub fn card_top_end() -> (r: usize)
        ensures
            r == 0x1a,
    {
        0x1a
    }

    /// Start of the `CardLeft` field.
    pub fn card_left_start() -> (r: usize)
        ensures
            r == 0x1a,
    {
        0x1a
    }

    /// End of the `CardLeft` field.
    pub fn card_left_end() -> (r: usize)
        ensures
            r == 0x1c,
    {
        0x1c
    }

    /// Start of the `CardBottom` field.
    pub fn card_bottom_start() -> (r: usize)
        ensures
            r == 0x1c,
    {
        0x1c
    }

    /// End of the `CardBottom` field.
    pub fn card_bottom_end() -> (r: usize)
        ensures
            r == 0x1e,
    {
        0x1e
    }

    /// Start of the `CardRight` field.
    pub fn card_right_start() -> (r: usize)
        ensures
            r == 0x1e,
    {
        0x1e
    }

    /// End of the `CardRight` field.
    pub fn card_right_end() -> (r: usize)
        ensures
            r == 0x20,
    {
        0x20
    }

    /// Start of the `MaskTop` field.
    pub fn mask_top_start() -> (r: usize)
        ensures
            r == 0x20,
    {
        0x20
    }

    /// End of the `MaskTop` field.
    pub fn mask_top_end() -> (r: usize)
        ensures
            r == 0x22,
    {
        0x22
    }

    /// Start of the `MaskLeft` field.
    pub fn mask_left_start() -> (r: usize)
        ensures
            r == 0x22,
    {
        0x22
    }

    /// End of the `MaskLeft` field.
    pub fn mask_left_end() -> (r: usize)
        ensures
            r == 0x24,
    {
        0x24
    }

    /// Start of the `MaskBottom` field.
    pub fn mask_bottom_start() -> (r: usize)
        ensures
            r == 0x24,
    {
        0x24
    }

    /// End of the `MaskBottom` field.
    pub fn mask_bottom_end() -> (r: usize)
        ensures
            r == 0x26,
    {
        0x26
    }

    /// Start of the `MaskRight` field.
    pub fn mask_right_start() -> (r: usize)
        ensures
            r == 0x26,
    {
        0x26
    }

    /// End of the `MaskRight` field.
    pub fn mask_right_end() -> (r: usize)
        ensures
            r == 0x28,
    {
        0x28
    }

    /// Start of the `ImageTop` field.
    pub fn image_top_start() -> (r: usize)
        ensures
            r == 0x28,
    {
        0x28
    }

    /// End of the `ImageTop` field.
    pub fn image_top_end() -> (r: usize)
        ensures
            r == 0x2a,
    {
        0x2a
    }

    /// Start of the `ImageLeft` field.
    pub fn image_left_start() -> (r: usize)
        ensures
            r == 0x2a,
    {
        0x2a
    }

    /// End of the `ImageLeft` field.
    pub fn image_left_end() -> (r: usize)
        ensures
            r == 0x2c,
    {
        0x2c
    }

    /// Start of the `ImageBottom` field.
    pub fn image_bottom_start() -> (r: usize)
        ensures
            r == 0x2c,
    {
        0x2c
    }

    /// End of the `ImageBottom` field.
    pub fn image_bottom_end() -> (r: usize)
        ensures
            r == 0x2e,
    {
        0x2e
    }

    /// Start of the `ImageRight` field.
    pub fn image_right_start() -> (r: usize)
        ensures
            r == 0x2e,
    {
        0x2e
    }

    /// End of the `ImageRight` field.
    pub fn image_right_end() -> (r: usize)
        ensures
            r == 0x30,
    {
        0x30
    }

    /// Start of the `UnknownGroup2` field.
    pub fn unknown_group2_start() -> (r: usize)
        ensures
            r == 0x30,
    {
        0x30
    }

    /// End of the `UnknownGroup2` field.
    pub fn unknown_group2_end() -> (r: usize)
        ensures
            r == 0x38,
    {
        0x38
    }

    /// Start of the `MaskDataSize` field.
    pub fn mask_data_size_start() -> (r: usize)
        ensures
            r == 0x38,
    {
        0x38
    }

    /// End of the `MaskDataSize` field.
    pub fn mask_data_size_end() -> (r: usize)
        ensures
            r == 0x3c,
    {
        0x3c
    }

    /// Start of the `ImageDataSize` field.
    pub fn image_data_size_start() -> (r: usize)
        ensures
            r == 0x3c,
    {
        0x3c
    }

    /// End of the `ImageDataSize` field.
    pub fn image_data_size_end() -> (r: usize)
        ensures
            r == 0x40,
    {
        0x40
    }

}

/// Field offsets of the Card layout.
pub struct CardLayout;

impl CardLayout {
    /// Start of the `BlockSize` field.
    pub fn block_size_start() -> (r: usize)
        ensures
            r == 0x0,
    {
        0x0
    }

    /// End of the `BlockSize` field.
    pub fn block_size_end() -> (r: usize)
        ensures
            r == 0x4,
    {
        0x4
    }

    /// Start of the `BlockCard` field.
    pub fn block_card_start() -> (r: usize)
        ensures
            r == 0x4,
    {
        0x4
    }

    /// End of the `BlockCard` field.
    pub fn block_card_end() -> (r: usize)
        ensures
            r == 0x8,
    {
        0x8
    }

    /// Start of the `BlockID` field.
    pub fn block_id_start() -> (r: usize)
        ensures
            r == 0x8,
    {
        0x8
    }

    /// End of the `BlockID` field.
    pub fn block_id_end() -> (r: usize)
        ensures
            r == 0xc,
    {
        0xc
    }

    /// Start of the `Filler0` field.
    pub fn filler0_start() -> (r: usize)
        ensures
            r == 0xc,
    {
        0xc
    }

    /// End of the `Filler0` field.
    pub fn filler0_end() -> (r: usize)
        ensures
            r == 0x10,
    {
        0x10
    }

    /// Start of the `BitmapID` field.
    pub fn bitmap_id_start() -> (r: usize)
        ensures
            r == 0x10,
    {
        0x10
    }

    /// End of the `BitmapID` field.
    pub fn bitmap_id_end() -> (r: usize)
        ensures
            r == 0x14,
    {
        0x14
    }

    /// Start of the `Flags` field.
    pub fn flags_start() -> (r: usize)
        ensures
            r == 0x14,
    {
        0x14
    }

    /// End of the `Flags` field.
    pub fn flags_end() -> (r: usize)
        ensures
            r == 0x16,
    {
        0x16
    }

    /// Start of the `AlignmentShort1` field.
    pub fn alignment_short1_start() -> (r: usize)
        ensures
            r == 0x16,
    {
        0x16
    }

    /// End of the `AlignmentShort1` field.
    pub fn alignment_short1_end() -> (r: usize)
        ensures
            r == 0x18,
    {
        0x18
    }

    /// Start of the `SkipToOffset32` field.
    pub fn skip_to_offset32_start() -> (r: usize)
        ensures
            r == 0x18,
    {
        0x18
    }

    /// End of the `SkipToOffset32` field.
    pub fn skip_to_offset32_end() -> (r: usize)
        ensures
            r == 0x20,
    {
        0x20
    }

    /// Start of the `ParentPageID` field.
    pub fn parent_page_id_start() -> (r: usize)
        ensures
            r == 0x20,
    {
        0x20
    }

    /// End of the `ParentPageID` field.
    pub fn parent_page_id_end() -> (r: usize)
        ensures
            r == 0x24,
    {
        0x24
    }

    /// Start of the `BackgroundID` field.
    pub fn background_id_start() -> (r: usize)
        ensures
            r == 0x24,
    {
        0x24
    }

    /// End of the `BackgroundID` field.
    pub fn background_id_end() -> (r: usize)
        ensures
            r == 0x28,
    {
        0x28
    }

    /// Start of the `PartNum` field.
    pub fn part_num_start() -> (r: usize)
        ensures
            r == 0x28,
    {
        0x28
    }

    /// End of the `PartNum` field.
    pub fn part_num_end() -> (r: usize)
        ensures
            r == 0x2a,
    {
        0x2a
    }

    /// Start of the `NewPartID` field.
    pub fn new_part_id_start() -> (r: usize)
        ensures
            r == 0x2a,
    {
        0x2a
    }

    /// End of the `NewPartID` field.
    pub fn new_part_id_end() -> (r: usize)
        ensures
            r == 0x2c,
    {
        0x2c
    }

    /// Start of the `PartListSize` field.
    pub fn part_list_size_start() -> (r: usize)
        ensures
            r == 0x2c,
    {
        0x2c
    }

    /// End of the `PartListSize` field.
    pub fn part_list_size_end() -> (r: usize)
        ensures
            r == 0x30,
    {
        0x30
    }

    /// Start of the `PartContentNum` field.
    pub fn part_content_num_start() -> (r: usize)
        ensures
            r == 0x30,
    {
        0x30
    }

    /// End of the `PartContentNum` field.
    pub fn part_content_num_end() -> (r: usize)
        ensures
            r == 0x32,
    {
        0x32
    }

    /// Start of the `PartContentListSize` field.
    pub fn part_content_list_size_start() -> (r: usize)
        ensures
            r == 0x32,
    {
        0x32
    }

    /// End of the `PartContentListSize` field.
    pub fn part_content_list_size_end() -> (r: usize)
        ensures
            r == 0x36,
    {
        0x36
    }

}

/// Field offsets of the Background layout.
pub struct BackgroundLayout;

impl BackgroundLayout {
    /// Start of the `BlockSize` field.
    pub fn block_size_start() -> (r: usize)
        ensures
            r == 0x0,
    {
        0x0
    }

    /// End of the `BlockSize` field.
    pub fn block_size_end() -> (r: usize)
        ensures
            r == 0x4,
    {
        0x4
    }

    /// Start of the `BlockType` field.
    pub fn block_type_start() -> (r: usize)
        ensures
            r == 0x4,
    {
        0x4
    }

    /// End of the `BlockType` field.
    pub fn block_type_end() -> (r: usize)
        ensures
            r == 0x8,
    {
        0x8
    }

    /// Start of the `BlockID` field.
    pub fn block_id_start() -> (r: usize)
        ensures
            r == 0x8,
    {
        0x8
    }

    /// End of the `BlockID` field.
    pub fn block_id_end() -> (r: usize)
        ensures
            r == 0xc,
    {
        0xc
    }

    /// Start of the `Filler0` field.
    pub fn filler0_start() -> (r: usize)
        ensures
            r == 0xc,
    {
        0xc
    }

    /// End of the `Filler0` field.
    pub fn filler0_end() -> (r: usize)
        ensures
            r == 0x10,
    {
        0x10
    }

    /// Start of the `BitmapID` field.
    pub fn bitmap_id_start() -> (r: usize)
        ensures
            r == 0x10,
    {
        0x10
    }

    /// End of the `BitmapID` field.
    pub fn bitmap_id_end() -> (r: usize)
        ensures
            r == 0x14,
    {
        0x14
    }

    /// Start of the `Flags` field.
    pub fn flags_start() -> (r: usize)
        ensures
            r == 0x14,
    {
        0x14
    }

    /// End of the `Flags` field.
    pub fn flags_end() -> (r: usize)
        ensures
            r == 0x16,
    {
        0x16
    }

    /// Start of the `AlignmentShort1` field.
    pub fn alignment_short1_start() -> (r: usize)
        ensures
            r == 0x16,
    {
        0x16
    }

    /// End of the `AlignmentShort1` field.
    pub fn alignment_short1_end() -> (r: usize)
        ensures
            r == 0x18,
    {
        0x18
    }

    /// Start of the `SkipToOffset32` field.
    pub fn skip_to_offset32_start() -> (r: usize)
        ensures
            r == 0x18,
    {
        0x18
    }

    /// End of the `SkipToOffset32` field.
    pub fn skip_to_offset32_end() -> (r: usize)
        ensures
            r == 0x20,
    {
        0x20
    }

    /// Start of the `CardNum` field.
    pub fn card_num_start() -> (r: usize)
        ensures
            r == 0x20,
    {
        0x20
    }

    /// End of the `CardNum` field.
    pub fn card_num_end() -> (r: usize)
        ensures
            r == 0x24,
    {
        0x24
    }

    /// Start of the `NextBackgroundID` field.
    pub fn next_background_id_start() -> (r: usize)
        ensures
            r == 0x24,
    {
        0x24
    }

    /// End of the `NextBackgroundID` field.
    pub fn next_background_id_end() -> (r: usize)
        ensures
            r == 0x28,
    {
        0x28
    }

    /// Start of the `PreviousBackgroundID` field.
    pub fn previous_background_id_start() -> (r: usize)
        ensures
            r == 0x28,
    {
        0x28
    }

    /// End of the `PreviousBackgroundID` field.
    pub fn previous_background_id_end() -> (r: usize)
        ensures
            r == 0x2c,
    {
        0x2c
    }

    /// Start of the `PartNum` field.
    pub fn part_num_start() -> (r: usize)
        ensures
            r == 0x2c,
    {
        0x2c
    }

    /// End of the `PartNum` field.
    pub fn part_num_end() -> (r: usize)
        ensures
            r == 0x2e,
    {
        0x2e
    }

    /// Start of the `NewPartID` field.
    pub fn new_part_id_start() -> (r: usize)
        ensures
            r == 0x2e,
    {
        0x2e
    }

    /// End of the `NewPartID` field.
    pub fn new_part_id_end() -> (r: usize)
        ensures
            r == 0x30,
    {
        0x30
    }

    /// Start of the `PartListSize` field.
    pub fn part_list_size_start() -> (r: usize)
        ensures
            r == 0x30,
    {
        0x30
    }

    /// End of the `PartListSize` field.
    pub fn part_list_size_end() -> (r: usize)
        ensures
            r == 0x34,
    {
        0x34
    }

    /// Start of the `PartContentNum` field.
    pub fn part_content_num_start() -> (r: usize)
        ensures
            r == 0x34,
    {
        0x34
    }

    /// End of the `PartContentNum` field.
    pub fn part_content_num_end() -> (r: usize)
        ensures
            r == 0x36,
    {
        0x36
    }

    /// Start of the `PartContentListSize` field.
    pub fn part_content_list_size_start() -> (r: usize)
        ensures
            r == 0x36,
    {
        0x36
    }

    /// End of the `PartContentListSize` field.
    pub fn part_content_list_size_end() -> (r: usize)
        ensures
            r == 0x3a,
    {
        0x3a
    }

}

/// Field offsets of the Part layout.
pub struct PartLayout;

impl PartLayout {
    /// Start of the `PartEntrySize` field.
    pub fn part_entry_size_start() -> (r: usize)
        ensures
            r == 0x0,
    {
        0x0
    }

    /// End of the `PartEntrySize` field.
    pub fn part_entry_size_end() -> (r: usize)
        ensures
            r == 0x2,
    {
        0x2
    }

    /// Start of the `PartID` field.
    pub fn part_id_start() -> (r: usize)
        ensures
            r == 0x2,
    {
        0x2
    }

    /// End of the `PartID` field.
    pub fn part_id_end() -> (r: usize)
        ensures
            r == 0x4,
    {
        0x4
    }

    /// Start of the `PartType` field.
    pub fn part_type_start() -> (r: usize)
        ensures
            r == 0x4,
    {
        0x4
    }

    /// End of the `PartType` field.
    pub fn part_type_end() -> (r: usize)
        ensures
            r == 0x5,
    {
        0x5
    }

    /// Start of the `Flags` field.
    pub fn flags_start() -> (r: usize)
        ensures
            r == 0x5,
    {
        0x5
    }

    /// End of the `Flags` field.
    pub fn flags_end() -> (r: usize)
        ensures
            r == 0x6,
    {
        0x6
    }

    /// Start of the `PartRectTop` field.
    pub fn part_rect_top_start() -> (r: usize)
        ensures
            r == 0x6,
    {
        0x6
    }

    /// End of the `PartRectTop` field.
    pub fn part_rect_top_end() -> (r: usize)
        ensures
            r == 0x8,
    {
        0x8
    }

    /// Start of the `PartRectLeft` field.
    pub fn part_rect_left_start() -> (r: usize)
        ensures
            r == 0x8,
    {
        0x8
    }

    /// End of the `PartRectLeft` field.
    pub fn part_rect_left_end() -> (r: usize)
        ensures
            r == 0xa,
    {
        0xa
    }

    /// Start of the `PartRectBottom` field.
    pub fn part_rect_bottom_start() -> (r: usize)
        ensures
            r == 0xa,
    {
        0xa
    }

    /// End of the `PartRectBottom` field.
    pub fn part_rect_bottom_end() -> (r: usize)
        ensures
            r == 0xc,
    {
        0xc
    }

    /// Start of the `PartRectRight` field.
    pub fn part_rect_right_start() -> (r: usize)
        ensures
            r == 0xc,
    {
        0xc
    }

    /// End of the `PartRectRight` field.
    pub fn part_rect_right_end() -> (r: usize)
        ensures
            r == 0xe,
    {
        0xe
    }

    /// Start of the `TextFlags` field.
    pub fn text_flags_start() -> (r: usize)
        ensures
            r == 0xe,
    {
        0xe
    }

    /// End of the `TextFlags` field.
    pub fn text_flags_end() -> (r: usize)
        ensures
            r == 0xf,
    {
        0xf
    }

    /// Start of the `Style` field.
    pub fn style_start() -> (r: usize)
        ensures
            r == 0xf,
    {
        0xf
    }

    /// End of the `Style` field.
    pub fn style_end() -> (r: usize)
        ensures
            r == 0x10,
    {
        0x10
    }

    /// Start of the `TitleWidthOrLastSelectedLine` field.
    pub fn title_width_or_last_selected_line_start() -> (r: usize)
        ensures
            r == 0x10,
    {
        0x10
    }

    /// End of the `TitleWidthOrLastSelectedLine` field.
    pub fn title_width_or_last_selected_line_end() -> (r: usize)
        ensures
            r == 0x12,
    {
        0x12
    }

    /// Start of the `IconIDOrFirstSelectedLine` field.
    pub fn icon_id_or_first_selected_line_start() -> (r: usize)
        ensures
            r == 0x12,
    {
        0x12
    }

    /// End of the `IconIDOrFirstSelectedLine` field.
    pub fn icon_id_or_first_selected_line_end() -> (r: usize)
        ensures
            r == 0x14,
    {
        0x14
    }

    /// Start of the `TextAlignment` field.
    pub fn text_alignment_start() -> (r: usize)
        ensures
            r == 0x14,
    {
        0x14
    }

    /// End of the `TextAlignment` field.
    pub fn text_alignment_end() -> (r: usize)
        ensures
            r == 0x16,
    {
        0x16
    }

    /// Start of the `TextFontID` field.
    pub fn text_font_id_start() -> (r: usize)
        ensures
            r == 0x16,
    {
        0x16
    }

    /// End of the `TextFontID` field.
    pub fn text_font_id_end() -> (r: usize)
        ensures
            r == 0x18,
    {
        0x18
    }

    /// Start of the `TextSize` field.
    pub fn text_size_start() -> (r: usize)
        ensures
            r == 0x18,
    {
        0x18
    }

    /// End of the `TextSize` field.
    pub fn text_size_end() -> (r: usize)
        ensures
            r == 0x1a,
    {
        0x1a
    }

    /// Start of the `TextStyleFlags` field.
    pub fn text_style_flags_start() -> (r: usize)
        ensures
            r == 0x1a,
    {
        0x1a
    }

    /// End of the `TextStyleFlags` field.
    pub fn text_style_flags_end() -> (r: usize)
        ensures
            r == 0x1b,
    {
        0x1b
    }

    /// Start of the `Filler0` field.
    pub fn filler0_start() -> (r: usize)
        ensures
            r == 0x1b,
    {
        0x1b
    }

    /// End of the `Filler0` field.
    pub fn filler0_end() -> (r: usize)
        ensures
            r == 0x1c,
    {
        0x1c
    }

    /// Start of the `LineHeight` field.
    pub fn line_height_start() -> (r: usize)
        ensures
            r == 0x1c,
    {
        0x1c
    }

    /// End of the `LineHeight` field.
    pub fn line_height_end() -> (r: usize)
        ensures
            r == 0x1e,
    {
        0x1e
    }

}

/// Field offsets of the PartContentEntry layout.
pub struct PartContentEntryLayout;

impl PartContentEntryLayout {
    /// Start of the `PartID` field.
    pub fn part_id_start() -> (r: usize)
        ensures
            r == 0x0,
    {
        0x0
    }

    /// End of the `PartID` field.
    pub fn part_id_end() -> (r: usize)
        ensures
            r == 0x2,
    {
        0x2
    }

    /// Start of the `PlainTextMarkerOrStyleLengthByte1` field.
    pub fn plain_text_marker_or_style_length_byte1_start() -> (r: usize)
        ensures
            r == 0x2,
    {
        0x2
    }

    /// End of the `PlainTextMarkerOrStyleLengthByte1` field.
    pub fn plain_text_marker_or_style_length_byte1_end() -> (r: usize)
        ensures
            r == 0x3,
    {
        0x3
    }

    /// Start of the `StyleLengthByte2` field.
    pub fn style_length_byte2_start() -> (r: usize)
        ensures
            r == 0x3,
    {
        0x3
    }

    /// End of the `StyleLengthByte2` field.
    pub fn style_length_byte2_end() -> (r: usize)
        ensures
            r == 0x4,
    {
        0x4
    }

}

/// Field offsets of the PartContentEntryStyle layout.
pub struct PartContentEntryStyleLayout;

impl PartContentEntryStyleLayout {
    /// Start of the `TextPosition` field.
    pub fn text_position_start() -> (r: usize)
        ensures
            r == 0x0,
    {
        0x0
    }

    /// End of the `TextPosition` field.
    pub fn text_position_end() -> (r: usize)
        ensures
            r == 0x2,
    {
        0x2
    }

    /// Start of the `StyleID` field.
    pub fn style_id_start() -> (r: usize)
        ensures
            r == 0x2,
    {
        0x2
    }

    /// End of the `StyleID` field.
    pub fn style_id_end() -> (r: usize)
        ensures
            r == 0x4,
    {
        0x4
    }

}

/// Field offsets of the StyleTable layout.
pub struct StyleTableLayout;

impl StyleTableLayout {
    /// Start of the `BlockSize` field.
    pub fn block_size_start() -> (r: usize)
        ensures
            r == 0x0,
    {
        0x0
    }

    /// End of the `BlockSize` field.
    pub fn block_size_end() -> (r: usize)
        ensures
            r == 0x4,
    {
        0x4
    }

    /// Start of the `BlockType` field.
    pub fn block_type_start() -> (r: usize)
        ensures
            r == 0x4,
    {
        0x4
    }

    /// End of the `BlockType` field.
    pub fn block_type_end() -> (r: usize)
        ensures
            r == 0x8,
    {
        0x8
    }

    /// Start of the `BlockID` field.
    pub fn block_id_start() -> (r: usize)
        ensures
            r == 0x8,
    {
        0x8
    }

    /// End of the `BlockID` field.
    pub fn block_id_end() -> (r: usize)
        ensures
            r == 0xc,
    {
        0xc
    }

    /// Start of the `Filler0` field.
    pub fn filler0_start() -> (r: usize)
        ensures
            r == 0xc,
    {
        0xc
    }

    /// End of the `Filler0` field.
    pub fn filler0_end() -> (r: usize)
        ensures
            r == 0x10,
    {
        0x10
    }

    /// Start of the `StyleNum` field.
    pub fn style_num_start() -> (r: usize)
        ensures
            r == 0x10,
    {
        0x10
    }

    /// End of the `StyleNum` field.
    pub fn style_num_end() -> (r: usize)
        ensures
            r == 0x14,
    {
        0x14
    }

    /// Start of the `NextStyleID` field.
    pub fn next_style_id_start() -> (r: usize)
        ensures
            r == 0x14,
    {
        0x14
    }

    /// End of the `NextStyleID` field.
    pub fn next_style_id_end() -> (r: usize)
        ensures
            r == 0x18,
    {
        0x18
    }

}

/// Field offsets of the Style layout.
pub struct StyleLayout;

impl StyleLayout {
    /// Start of the `StyleID` field.
    pub fn style_id_start() -> (r: usize)
        ensures
            r == 0x0,
    {
        0x0
    }

    /// End of the `StyleID` field.
    pub fn style_id_end() -> (r: usize)
        ensures
            r == 0x4,
    {
        0x4
    }

    /// Start of the `Filler1` field.
    pub fn filler1_start() -> (r: usize)
        ensures
            r == 0x4,
    {
        0x4
    }

    /// End of the `Filler1` field.
    pub fn filler1_end() -> (r: usize)
        ensures
            r == 0x8,
    {
        0x8
    }

    /// Start of the `Unknown1` field.
    pub fn unknown1_start() -> (r: usize)
        ensures
            r == 0x8,
    {
        0x8
    }

    /// End of the `Unknown1` field.
    pub fn unknown1_end() -> (r: usize)
        ensures
            r == 0xa,
    {
        0xa
    }

    /// Start of the `FontID` field.
    pub fn font_id_start() -> (r: usize)
        ensures
            r == 0xa,
    {
        0xa
    }

    /// End of the `FontID` field.
    pub fn font_id_end() -> (r: usize)
        ensures
            r == 0xc,
    {
        0xc
    }

    /// Start of the `StyleFlags` field.
    pub fn style_flags_start() -> (r: usize)
        ensures
            r == 0xc,
    {
        0xc
    }

    /// End of the `StyleFlags` field.
    pub fn style_flags_end() -> (r: usize)
        ensures
            r == 0xe,
    {
        0xe
    }

    /// Start of the `FontSize` field.
    pub fn font_size_start() -> (r: usize)
        ensures
            r == 0xe,
    {
        0xe
    }

    /// End of the `FontSize` field.
    pub fn font_size_end() -> (r: usize)
        ensures
            r == 0x10,
    {
        0x10
    }

    /// Start of the `Filler2` field.
    pub fn filler2_start() -> (r: usize)
        ensures
            r == 0x10,
    {
        0x10
    }

    /// End of the `Filler2` field.
    pub fn filler2_end() -> (r: usize)
        ensures
            r == 0x18,
    {
        0x18
    }

}

} // verus!
