//! The envelopes that the endpoints wrap their replies in, and the two shapes
//! in which the login endpoint answers.

use vstd::prelude::*;
use crate::web_api::decode::{Decode, DecodeError, DecodeErrorKind, Fault};
use crate::web_api::domain::infos::{LoginInfos, LoginInfosView, UserInfos, UserInfosView};
use crate::web_api::domain::{UserFeed, UserFeedView};
use crate::web_api::json::{Json, JsonView};

pub mod deserializer;

verus! {

/// Why a profile could not be had.
#[derive(Debug, PartialEq, Eq, Structural, Clone, Copy)]
pub enum UserInfosError {
    NotFound,
    Other,
}

/// The envelope of a profile reply: `{graphql: T}`.
#[derive(Debug, PartialEq)]
pub struct ApiResponse<T> {
    pub graphql: T,
}

impl<T: DeepView> DeepView for ApiResponse<T> {
    type V = T::V;

    open spec fn deep_view(&self) -> T::V {
        self.graphql.deep_view()
    }
}

impl<T: Decode> Decode for ApiResponse<T> {
    open spec fn parse(j: JsonView) -> Result<T::V, Fault> {
        j.required::<T>("graphql"@)
    }

    fn decode(j: &Json) -> (r: Result<ApiResponse<T>, DecodeError>) {
        match j.required::<T>("graphql") {
            Ok(graphql) => Ok(ApiResponse { graphql }),
            Err(e) => Err(e),
        }
    }
}

/// The envelope of a query reply: `{data: T}`.
#[derive(Debug, PartialEq)]
pub struct GraphQLResponse<T> {
    pub data: T,
}

impl<T: DeepView> DeepView for GraphQLResponse<T> {
    type V = T::V;

    open spec fn deep_view(&self) -> T::V {
        self.data.deep_view()
    }
}

impl<T: Decode> Decode for GraphQLResponse<T> {
    open spec fn parse(j: JsonView) -> Result<T::V, Fault> {
        j.required::<T>("data"@)
    }

    fn decode(j: &Json) -> (r: Result<GraphQLResponse<T>, DecodeError>) {
        match j.required::<T>("data") {
            Ok(data) => Ok(GraphQLResponse { data }),
            Err(e) => Err(e),
        }
    }
}

/// What the envelope of a profile reply holds: `{user: UserInfos}`.
#[derive(Debug, PartialEq)]
pub struct UserInfosResponse {
    pub user: UserInfos,
}

impl DeepView for UserInfosResponse {
    type V = UserInfosView;

    open spec fn deep_view(&self) -> UserInfosView {
        self.user@
    }
}

impl Decode for UserInfosResponse {
    open spec fn parse(j: JsonView) -> Result<UserInfosView, Fault> {
        j.required::<UserInfos>("user"@)
    }

    fn decode(j: &Json) -> (r: Result<UserInfosResponse, DecodeError>) {
        match j.required::<UserInfos>("user") {
            Ok(user) => Ok(UserInfosResponse { user }),
            Err(e) => Err(e),
        }
    }
}

/// What the envelope of a feed reply holds: `{feed: UserFeed}`.
#[derive(Debug, PartialEq)]
pub struct UserFeedResponse {
    pub feed: UserFeed,
}

impl DeepView for UserFeedResponse {
    type V = UserFeedView;

    open spec fn deep_view(&self) -> UserFeedView {
        self.feed@
    }
}

impl Decode for UserFeedResponse {
    open spec fn parse(j: JsonView) -> Result<UserFeedView, Fault> {
        j.required::<UserFeed>("feed"@)
    }

    fn decode(j: &Json) -> (r: Result<UserFeedResponse, DecodeError>) {
        match j.required::<UserFeed>("feed") {
            Ok(feed) => Ok(UserFeedResponse { feed }),
            Err(e) => Err(e),
        }
    }
}

/// What the login endpoint answers: that the session is open, or that a second
/// factor is asked for. The two are told apart by their members alone.
#[derive(Debug, PartialEq)]
pub enum LoginResponse {
    Success(LoginInfos),
    TwoFactorNeeded(TwoFactorRequiredResponse),
}

/// The mathematical value of a [`LoginResponse`].
pub enum LoginResponseView {
    Success(LoginInfosView),
    TwoFactorNeeded(TwoFactorRequiredResponseView),
}

impl View for LoginResponse {
    type V = LoginResponseView;

    open spec fn view(&self) -> LoginResponseView {
        match self {
            LoginResponse::Success(infos) => LoginResponseView::Success(infos@),
            LoginResponse::TwoFactorNeeded(challenge) => LoginResponseView::TwoFactorNeeded(
                challenge@,
            ),
        }
    }
}

impl DeepView for LoginResponse {
    type V = LoginResponseView;

    open spec fn deep_view(&self) -> LoginResponseView {
        self@
    }
}

/// The shapes are tried in a fixed order, success first: a body that has the
/// members of a success is one, whatever else it holds.
impl Decode for LoginResponse {
    open spec fn parse(j: JsonView) -> Result<LoginResponseView, Fault> {
        match LoginInfos::parse(j) {
            Ok(infos) => Ok(LoginResponseView::Success(infos)),
            Err(_) => match TwoFactorRequiredResponse::parse(j) {
                Ok(challenge) => Ok(LoginResponseView::TwoFactorNeeded(challenge)),
                Err(_) => Err(Fault::here(DecodeErrorKind::WrongShape)),
            },
        }
    }

    fn decode(j: &Json) -> (r: Result<LoginResponse, DecodeError>) {
        match LoginInfos::decode(j) {
            Ok(infos) => Ok(LoginResponse::Success(infos)),
            Err(_) => match TwoFactorRequiredResponse::decode(j) {
                Ok(challenge) => Ok(LoginResponse::TwoFactorNeeded(challenge)),
                Err(_) => Err(DecodeError::here(DecodeErrorKind::WrongShape)),
            },
        }
    }
}

/// A body that has the members of a success is taken as one, whether or not it
/// has those of a challenge too.
pub proof fn lemma_success_comes_first(j: JsonView)
    ensures
        LoginInfos::parse(j) matches Ok(infos) ==> LoginResponse::parse(j) == Ok::<
            LoginResponseView,
            Fault,
        >(LoginResponseView::Success(infos)),
        LoginInfos::parse(j) is Err ==> (LoginResponse::parse(j) is Ok
            <==> TwoFactorRequiredResponse::parse(j) is Ok),
{
}

/// The challenge that the login endpoint answers with where the account asks
/// for a second factor.
#[derive(Debug, PartialEq)]
pub struct TwoFactorRequiredResponse {
    pub message: String,
    pub two_factor_required: bool,
    pub two_factor_info: TwoFactorInfo,
    pub phone_verification_settings: PhoneVerificationSettings,
    pub status: String,
}

/// The mathematical value of a [`TwoFactorRequiredResponse`].
pub struct TwoFactorRequiredResponseView {
    pub message: Seq<char>,
    pub two_factor_required: bool,
    pub two_factor_info: TwoFactorInfoView,
    pub phone_verification_settings: PhoneVerificationSettingsView,
    pub status: Seq<char>,
}

impl View for TwoFactorRequiredResponse {
    type V = TwoFactorRequiredResponseView;

    open spec fn view(&self) -> TwoFactorRequiredResponseView {
        TwoFactorRequiredResponseView {
            message: self.message@,
            two_factor_required: self.two_factor_required,
            two_factor_info: self.two_factor_info.deep_view(),
            phone_verification_settings: self.phone_verification_settings.deep_view(),
            status: self.status@,
        }
    }
}

impl DeepView for TwoFactorRequiredResponse {
    type V = TwoFactorRequiredResponseView;

    open spec fn deep_view(&self) -> TwoFactorRequiredResponseView {
        self@
    }
}

impl Decode for TwoFactorRequiredResponse {
    open spec fn parse(j: JsonView) -> Result<TwoFactorRequiredResponseView, Fault> {
        let message = j.required::<String>("message"@);
        let two_factor_required = j.required::<bool>("two_factor_required"@);
        let two_factor_info = j.required::<TwoFactorInfo>("two_factor_info"@);
        let phone_verification_settings = j.required::<PhoneVerificationSettings>(
            "phone_verification_settings"@,
        );
        let status = j.required::<String>("status"@);
        if message is Err {
            Err(message->Err_0)
        } else if two_factor_required is Err {
            Err(two_factor_required->Err_0)
        } else if two_factor_info is Err {
            Err(two_factor_info->Err_0)
        } else if phone_verification_settings is Err {
            Err(phone_verification_settings->Err_0)
        } else if status is Err {
            Err(status->Err_0)
        } else {
            Ok(
                TwoFactorRequiredResponseView {
                    message: message->Ok_0,
                    two_factor_required: two_factor_required->Ok_0,
                    two_factor_info: two_factor_info->Ok_0,
                    phone_verification_settings: phone_verification_settings->Ok_0,
                    status: status->Ok_0,
                },
            )
        }
    }

    fn decode(j: &Json) -> (r: Result<TwoFactorRequiredResponse, DecodeError>) {
        let message = j.required::<String>("message")?;
        let two_factor_required = j.required::<bool>("two_factor_required")?;
        let two_factor_info = j.required::<TwoFactorInfo>("two_factor_info")?;
        let phone_verification_settings = j.required::<PhoneVerificationSettings>(
            "phone_verification_settings",
        )?;
        let status = j.required::<String>("status")?;
        Ok(
            TwoFactorRequiredResponse {
                message,
                two_factor_required,
                two_factor_info,
                phone_verification_settings,
                status,
            },
        )
    }
}

/// How the second factor of an account is set up.
#[derive(Debug, PartialEq)]
pub struct TwoFactorInfo {
    pub username: String,
    pub sms_two_factor_on: bool,
    pub totp_two_factor_on: bool,
    pub obfuscated_phone_number: String,
    pub two_factor_identifier: String,
    pub show_messenger_code_option: bool,
    pub show_new_login_screen: bool,
    pub show_trusted_device_option: bool,
    pub phone_verification_settings: PhoneVerificationSettings,
}

/// The mathematical value of a [`TwoFactorInfo`].
pub struct TwoFactorInfoView {
    pub username: Seq<char>,
    pub sms_two_factor_on: bool,
    pub totp_two_factor_on: bool,
    pub obfuscated_phone_number: Seq<char>,
    pub two_factor_identifier: Seq<char>,
    pub show_messenger_code_option: bool,
    pub show_new_login_screen: bool,
    pub show_trusted_device_option: bool,
    pub phone_verification_settings: PhoneVerificationSettingsView,
}

impl View for TwoFactorInfo {
    type V = TwoFactorInfoView;

    open spec fn view(&self) -> TwoFactorInfoView {
        TwoFactorInfoView {
            username: self.username@,
            sms_two_factor_on: self.sms_two_factor_on,
            totp_two_factor_on: self.totp_two_factor_on,
            obfuscated_phone_number: self.obfuscated_phone_number@,
            two_factor_identifier: self.two_factor_identifier@,
            show_messenger_code_option: self.show_messenger_code_option,
            show_new_login_screen: self.show_new_login_screen,
            show_trusted_device_option: self.show_trusted_device_option,
            phone_verification_settings: self.phone_verification_settings.deep_view(),
        }
    }
}

impl DeepView for TwoFactorInfo {
    type V = TwoFactorInfoView;

    open spec fn deep_view(&self) -> TwoFactorInfoView {
        self@
    }
}

impl Decode for TwoFactorInfo {
    open spec fn parse(j: JsonView) -> Result<TwoFactorInfoView, Fault> {
        let username = j.required::<String>("username"@);
        let sms_two_factor_on = j.required::<bool>("sms_two_factor_on"@);
        let totp_two_factor_on = j.required::<bool>("totp_two_factor_on"@);
        let obfuscated_phone_number = j.required::<String>("obfuscated_phone_number"@);
        let two_factor_identifier = j.required::<String>("two_factor_identifier"@);
        let show_messenger_code_option = j.required::<bool>("show_messenger_code_option"@);
        let show_new_login_screen = j.required::<bool>("show_new_login_screen"@);
        let show_trusted_device_option = j.required::<bool>("show_trusted_device_option"@);
        let phone_verification_settings = j.required::<PhoneVerificationSettings>(
            "phone_verification_settings"@,
        );
        if username is Err {
            Err(username->Err_0)
        } else if sms_two_factor_on is Err {
            Err(sms_two_factor_on->Err_0)
        } else if totp_two_factor_on is Err {
            Err(totp_two_factor_on->Err_0)
        } else if obfuscated_phone_number is Err {
            Err(obfuscated_phone_number->Err_0)
        } else if two_factor_identifier is Err {
            Err(two_factor_identifier->Err_0)
        } else if show_messenger_code_option is Err {
            Err(show_messenger_code_option->Err_0)
        } else if show_new_login_screen is Err {
            Err(show_new_login_screen->Err_0)
        } else if show_trusted_device_option is Err {
            Err(show_trusted_device_option->Err_0)
        } else if phone_verification_settings is Err {
            Err(phone_verification_settings->Err_0)
        } else {
            Ok(
                TwoFactorInfoView {
                    username: username->Ok_0,
                    sms_two_factor_on: sms_two_factor_on->Ok_0,
                    totp_two_factor_on: totp_two_factor_on->Ok_0,
                    obfuscated_phone_number: obfuscated_phone_number->Ok_0,
                    two_factor_identifier: two_factor_identifier->Ok_0,
                    show_messenger_code_option: show_messenger_code_option->Ok_0,
                    show_new_login_screen: show_new_login_screen->Ok_0,
                    show_trusted_device_option: show_trusted_device_option->Ok_0,
                    phone_verification_settings: phone_verification_settings->Ok_0,
                },
            )
        }
    }

    fn decode(j: &Json) -> (r: Result<TwoFactorInfo, DecodeError>) {
        let username = j.required::<String>("username")?;
        let sms_two_factor_on = j.required::<bool>("sms_two_factor_on")?;
        let totp_two_factor_on = j.required::<bool>("totp_two_factor_on")?;
        let obfuscated_phone_number = j.required::<String>("obfuscated_phone_number")?;
        let two_factor_identifier = j.required::<String>("two_factor_identifier")?;
        let show_messenger_code_option = j.required::<bool>("show_messenger_code_option")?;
        let show_new_login_screen = j.required::<bool>("show_new_login_screen")?;
        let show_trusted_device_option = j.required::<bool>("show_trusted_device_option")?;
        let phone_verification_settings = j.required::<PhoneVerificationSettings>(
            "phone_verification_settings",
        )?;
        Ok(
            TwoFactorInfo {
                username,
                sms_two_factor_on,
                totp_two_factor_on,
                obfuscated_phone_number,
                two_factor_identifier,
                show_messenger_code_option,
                show_new_login_screen,
                show_trusted_device_option,
                phone_verification_settings,
            },
        )
    }
}

/// The limits of the verification by phone.
#[derive(Debug, PartialEq)]
pub struct PhoneVerificationSettings {
    pub max_sms_count: i8,
    pub resend_sms_delay_sec: i32,
    pub robocall_count_down_time_sec: i32,
    pub robocall_after_max_sms: bool,
}

/// The mathematical value of a [`PhoneVerificationSettings`].
pub struct PhoneVerificationSettingsView {
    pub max_sms_count: i8,
    pub resend_sms_delay_sec: i32,
    pub robocall_count_down_time_sec: i32,
    pub robocall_after_max_sms: bool,
}

impl View for PhoneVerificationSettings {
    type V = PhoneVerificationSettingsView;

    open spec fn view(&self) -> PhoneVerificationSettingsView {
        PhoneVerificationSettingsView {
            max_sms_count: self.max_sms_count,
            resend_sms_delay_sec: self.resend_sms_delay_sec,
            robocall_count_down_time_sec: self.robocall_count_down_time_sec,
            robocall_after_max_sms: self.robocall_after_max_sms,
        }
    }
}

impl DeepView for PhoneVerificationSettings {
    type V = PhoneVerificationSettingsView;

    open spec fn deep_view(&self) -> PhoneVerificationSettingsView {
        self@
    }
}

impl Decode for PhoneVerificationSettings {
    open spec fn parse(j: JsonView) -> Result<PhoneVerificationSettingsView, Fault> {
        let max_sms_count = j.required::<i8>("max_sms_count"@);
        let resend_sms_delay_sec = j.required::<i32>("resend_sms_delay_sec"@);
        let robocall_count_down_time_sec = j.required::<i32>("robocall_count_down_time_sec"@);
        let robocall_after_max_sms = j.required::<bool>("robocall_after_max_sms"@);
        if max_sms_count is Err {
            Err(max_sms_count->Err_0)
        } else if resend_sms_delay_sec is Err {
            Err(resend_sms_delay_sec->Err_0)
        } else if robocall_count_down_time_sec is Err {
            Err(robocall_count_down_time_sec->Err_0)
        } else if robocall_after_max_sms is Err {
            Err(robocall_after_max_sms->Err_0)
        } else {
            Ok(
                PhoneVerificationSettingsView {
                    max_sms_count: max_sms_count->Ok_0,
                    resend_sms_delay_sec: resend_sms_delay_sec->Ok_0,
                    robocall_count_down_time_sec: robocall_count_down_time_sec->Ok_0,
                    robocall_after_max_sms: robocall_after_max_sms->Ok_0,
                },
            )
        }
    }

    fn decode(j: &Json) -> (r: Result<PhoneVerificationSettings, DecodeError>) {
        let max_sms_count = j.required::<i8>("max_sms_count")?;
        let resend_sms_delay_sec = j.required::<i32>("resend_sms_delay_sec")?;
        let robocall_count_down_time_sec = j.required::<i32>("robocall_count_down_time_sec")?;
        let robocall_after_max_sms = j.required::<bool>("robocall_after_max_sms")?;
        Ok(
            PhoneVerificationSettings {
                max_sms_count,
                resend_sms_delay_sec,
                robocall_count_down_time_sec,
                robocall_after_max_sms,
            },
        )
    }
}
} // verus!
