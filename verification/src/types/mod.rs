//! The records that the service sends and takes.

pub mod api_root;
pub mod authorized_apps;
pub mod automation_campaign;
pub mod campaign;
pub mod ecommerce;
pub mod empty;
pub mod link;
pub mod list_members;
pub mod member_filter;

pub use self::api_root::{ApiRootType, ContactType};
pub use self::authorized_apps::{AuthorizedAppType, AuthorizedAppsType, CreatedAuthorizedAppType};
pub use self::automation_campaign::{
    AutomationCampaignSettingsType, AutomationDelayType, AutomationModifier,
    AutomationTrackingOptionsType, AutomationTriggerType, AutomationWorkflowType, AutomationsType,
    CampaignReportSummaryType, CampaignSettingsType, CampaignTrackingOptionsType,
    CapsuleCRMTrackingType, RecipientType, SalesforceCRMTrackingType, SegmentConditionsType,
    SegmentOptionsType, SocialCardType, WorkflowEmailType, WorkflowEmailsType,
};
pub use self::campaign::{
    ABTestingOptionsType, CampaignDeliveryStatusType, CampaignType, CampaignsType,
    CombinationsType, DailySendingDaysType, RSSOptionsType, SendingScheduleType,
    VariateSettingsType,
};
pub use self::ecommerce::ECommerceReportType;
pub use self::empty::EmptyType;
pub use self::link::LinkType;
pub use self::list_members::{
    CollectionListMembers, ListMarketingPermision, ListMember, ListMembersBuilder,
    ListMembersFilter, ListNote, SubscriberLocation, SubscriberStats,
};
