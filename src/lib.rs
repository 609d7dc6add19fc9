//! Verified core of a small Direct3D 12 renderer: result-code handling,
//! texture and buffer layout, descriptor offsets, adapter choice and the
//! fence protocol that orders command submission against GPU completion.

pub mod hresult;
pub mod texture;
pub mod decode;
pub mod device;
pub mod layout;
pub mod frame;

pub use hresult::{
    hresult_to_result, classify_compile, succeeded, CompileStatus, ERROR_FILE_NOT_FOUND,
    ERROR_PATH_NOT_FOUND, S_FALSE, S_OK,
};
pub use texture::{
    aligned_row_pitch, texel_size, texture_image, ColorKind, Image,
    TexMetadata, FORMAT_R8G8B8A8_UNORM, TEXTURE_DATA_PITCH_ALIGNMENT,
};
pub use decode::{decode_texture, TextureError};
pub use device::{
    feature_level_step, feature_levels, select_adapter, units_equal, utf16_to_vec, FEATURE_LEVEL_11_0,
    FEATURE_LEVEL_11_1, FEATURE_LEVEL_12_0, FEATURE_LEVEL_12_1, LevelStep,
};
pub use layout::{back_buffer_handles, buffer_size_in_bytes, descriptor_handle, set_scissor_rect, Rect};
pub use frame::{FenceAction, FenceEvent, FrameFence, FramePhase};
