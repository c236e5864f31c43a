//! Data exchanged with the cloud API and kept on disk.
pub mod api;
pub mod local;

pub use api::{
    AuthLoginRequest, AuthLoginResponse, AuthRegisterRequest, AuthRegisterResponse,
    ChannelAddRequest, ChannelStatus, ChannelsResponse, RegisterRequest, RegisterResponse,
    TemplateCreateRequest, TemplateDetailResponse, TemplateDuplicateRequest, TemplateListItem,
    TemplateVersionCreateRequest, TemplateVersionDuplicateRequest, TemplateVersionResponse,
    TemplateVersionSummary, TemplateVersionUpdateRequest, TemplatesListResponse, UserConfig,
};
pub use local::LocalClientState;
