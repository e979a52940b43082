//! The closed catalog of remote API routes: a symbolic operation name
//! maps to an HTTP method and a path under the base URL. A
//! configuration artifact of the request client, kept as data with an
//! exact contract.

use vstd::prelude::*;

use crate::client::HttpMethod;
use crate::error::AppError;
use crate::strutil::str_eq;

verus! {

/// Every remote operation the client can address.
#[derive(Debug, Clone, Copy, PartialEq, Eq, Structural)]
pub enum ImUrl {
    Login,
    RefreshToken,
    ForgetPassword,
    CheckToken,
    Logout,
    Register,
    InitConfig,
    GetAssistantModelList,
    SendCaptcha,
    GetCaptcha,
    Announcement,
    EditAnnouncement,
    DeleteAnnouncement,
    PushAnnouncement,
    GetAnnouncementList,
    ApplyGroup,
    SearchGroup,
    UpdateMyRoomInfo,
    UpdateRoomInfo,
    GroupInfo,
    Shield,
    Notification,
    DeleteSession,
    SetSessionTop,
    SessionDetail,
    GetMsgReadCount,
    GetMsgReadList,
    HandleInvite,
    NoticeUnReadCount,
    RequestNoticePage,
    ChangeUserState,
    GetAllUserState,
    GetEmoji,
    DeleteEmoji,
    AddEmoji,
    RecallMsg,
    BlockUser,
    MarkMsg,
    ModifyUserInfo,
    GetUserInfoDetail,
    GetMsgList,
    GetMsgPage,
    GetAllUserBaseInfo,
    GetMemberStatistic,
    SendMsg,
    SetHide,
    MarkMsgRead,
    CheckEmail,
    MergeMsg,
    GetUserByIds,
    GenerateQRCode,
    CheckQRStatus,
    ScanQRCode,
    ConfirmQRCode,
}

/// The HTTP method of each operation.
pub open spec fn spec_url_method(u: ImUrl) -> HttpMethod {
    match u {
        ImUrl::Login => HttpMethod::Post,
        ImUrl::RefreshToken => HttpMethod::Post,
        ImUrl::ForgetPassword => HttpMethod::Put,
        ImUrl::CheckToken => HttpMethod::Post,
        ImUrl::Logout => HttpMethod::Post,
        ImUrl::Register => HttpMethod::Post,
        ImUrl::InitConfig => HttpMethod::Get,
        ImUrl::GetAssistantModelList => HttpMethod::Get,
        ImUrl::SendCaptcha => HttpMethod::Post,
        ImUrl::GetCaptcha => HttpMethod::Get,
        ImUrl::Announcement => HttpMethod::Get,
        ImUrl::EditAnnouncement => HttpMethod::Post,
        ImUrl::DeleteAnnouncement => HttpMethod::Post,
        ImUrl::PushAnnouncement => HttpMethod::Post,
        ImUrl::GetAnnouncementList => HttpMethod::Get,
        ImUrl::ApplyGroup => HttpMethod::Post,
        ImUrl::SearchGroup => HttpMethod::Get,
        ImUrl::UpdateMyRoomInfo => HttpMethod::Post,
        ImUrl::UpdateRoomInfo => HttpMethod::Post,
        ImUrl::GroupInfo => HttpMethod::Get,
        ImUrl::Shield => HttpMethod::Post,
        ImUrl::Notification => HttpMethod::Post,
        ImUrl::DeleteSession => HttpMethod::Delete,
        ImUrl::SetSessionTop => HttpMethod::Post,
        ImUrl::SessionDetail => HttpMethod::Get,
        ImUrl::GetMsgReadCount => HttpMethod::Get,
        ImUrl::GetMsgReadList => HttpMethod::Get,
        ImUrl::HandleInvite => HttpMethod::Post,
        ImUrl::NoticeUnReadCount => HttpMethod::Get,
        ImUrl::RequestNoticePage => HttpMethod::Get,
        ImUrl::ChangeUserState => HttpMethod::Post,
        ImUrl::GetAllUserState => HttpMethod::Get,
        ImUrl::GetEmoji => HttpMethod::Get,
        ImUrl::DeleteEmoji => HttpMethod::Delete,
        ImUrl::AddEmoji => HttpMethod::Post,
        ImUrl::RecallMsg => HttpMethod::Put,
        ImUrl::BlockUser => HttpMethod::Put,
        ImUrl::MarkMsg => HttpMethod::Put,
        ImUrl::ModifyUserInfo => HttpMethod::Put,
        ImUrl::GetUserInfoDetail => HttpMethod::Get,
        ImUrl::GetMsgList => HttpMethod::Post,
        ImUrl::GetMsgPage => HttpMethod::Get,
        ImUrl::GetAllUserBaseInfo => HttpMethod::Get,
        ImUrl::GetMemberStatistic => HttpMethod::Get,
        ImUrl::SendMsg => HttpMethod::Post,
        ImUrl::SetHide => HttpMethod::Post,
        ImUrl::MarkMsgRead => HttpMethod::Put,
        ImUrl::CheckEmail => HttpMethod::Get,
        ImUrl::MergeMsg => HttpMethod::Post,
        ImUrl::GetUserByIds => HttpMethod::Post,
        ImUrl::GenerateQRCode => HttpMethod::Get,
        ImUrl::CheckQRStatus => HttpMethod::Get,
        ImUrl::ScanQRCode => HttpMethod::Post,
        ImUrl::ConfirmQRCode => HttpMethod::Post,
    }
}

/// The route of each operation, under the base URL.
pub open spec fn spec_url_path(u: ImUrl) -> Seq<char> {
    match u {
        ImUrl::Login => "oauth/anyTenant/login"@,
        ImUrl::RefreshToken => "oauth/anyTenant/refresh"@,
        ImUrl::ForgetPassword => "oauth/anyTenant/password"@,
        ImUrl::CheckToken => "oauth/check"@,
        ImUrl::Logout => "oauth/anyUser/logout"@,
        ImUrl::Register => "oauth/anyTenant/registerByEmail"@,
        ImUrl::InitConfig => "system/anyTenant/config/init"@,
        ImUrl::GetAssistantModelList => "system/model/list"@,
        ImUrl::SendCaptcha => "oauth/anyTenant/sendEmailCode"@,
        ImUrl::GetCaptcha => "oauth/anyTenant/captcha"@,
        ImUrl::Announcement => "im/room/announcement"@,
        ImUrl::EditAnnouncement => "im/room/announcement/edit"@,
        ImUrl::DeleteAnnouncement => "im/room/announcement/delete"@,
        ImUrl::PushAnnouncement => "im/room/announcement/push"@,
        ImUrl::GetAnnouncementList => "im/room/announcement/list"@,
        ImUrl::ApplyGroup => "im/room/apply/group"@,
        ImUrl::SearchGroup => "im/room/search"@,
        ImUrl::UpdateMyRoomInfo => "im/room/updateMyRoomInfo"@,
        ImUrl::UpdateRoomInfo => "im/room/updateRoomInfo"@,
        ImUrl::GroupInfo => "im/room/group/info"@,
        ImUrl::Shield => "im/chat/setShield"@,
        ImUrl::Notification => "im/chat/notification"@,
        ImUrl::DeleteSession => "im/chat/delete"@,
        ImUrl::SetSessionTop => "im/chat/setTop"@,
        ImUrl::SessionDetail => "im/chat/contact/detail"@,
        ImUrl::GetMsgReadCount => "im/chat/msg/read"@,
        ImUrl::GetMsgReadList => "im/chat/msg/read/page"@,
        ImUrl::HandleInvite => "im/room/apply/handler/apply"@,
        ImUrl::NoticeUnReadCount => "im/room/notice/unread"@,
        ImUrl::RequestNoticePage => "im/room/notice/page"@,
        ImUrl::ChangeUserState => "im/user/state/changeState"@,
        ImUrl::GetAllUserState => "im/user/state/list"@,
        ImUrl::GetEmoji => "im/user/emoji/list"@,
        ImUrl::DeleteEmoji => "im/user/emoji"@,
        ImUrl::AddEmoji => "im/user/emoji"@,
        ImUrl::RecallMsg => "im/chat/msg/recall"@,
        ImUrl::BlockUser => "im/user/black"@,
        ImUrl::MarkMsg => "im/chat/msg/mark"@,
        ImUrl::ModifyUserInfo => "im/user/info"@,
        ImUrl::GetUserInfoDetail => "im/user/userInfo"@,
        ImUrl::GetMsgList => "im/chat/msg/list"@,
        ImUrl::GetMsgPage => "im/chat/msg/page"@,
        ImUrl::GetAllUserBaseInfo => "im/room/group/member/list"@,
        ImUrl::GetMemberStatistic => "im/chat/member/statistic"@,
        ImUrl::SendMsg => "im/chat/msg"@,
        ImUrl::SetHide => "im/chat/setHide"@,
        ImUrl::MarkMsgRead => "im/chat/msg/read"@,
        ImUrl::CheckEmail => "oauth/anyTenant/checkEmail"@,
        ImUrl::MergeMsg => "im/room/mergeMessage"@,
        ImUrl::GetUserByIds => "im/user/getUserByIds"@,
        ImUrl::GenerateQRCode => "oauth/anyTenant/qr/generate"@,
        ImUrl::CheckQRStatus => "oauth/anyTenant/qr/status/query"@,
        ImUrl::ScanQRCode => "oauth/qrcode/scan"@,
        ImUrl::ConfirmQRCode => "oauth/qrcode/confirm"@,
    }
}

/// The symbolic name under which the shell addresses each operation.
pub open spec fn spec_url_key(u: ImUrl) -> Seq<char> {
    match u {
        ImUrl::Login => "login"@,
        ImUrl::RefreshToken => "refreshToken"@,
        ImUrl::ForgetPassword => "forgetPassword"@,
        ImUrl::CheckToken => "checkToken"@,
        ImUrl::Logout => "logout"@,
        ImUrl::Register => "register"@,
        ImUrl::InitConfig => "initConfig"@,
        ImUrl::GetAssistantModelList => "getAssistantModelList"@,
        ImUrl::SendCaptcha => "sendCaptcha"@,
        ImUrl::GetCaptcha => "getCaptcha"@,
        ImUrl::Announcement => "announcement"@,
        ImUrl::EditAnnouncement => "editAnnouncement"@,
        ImUrl::DeleteAnnouncement => "deleteAnnouncement"@,
        ImUrl::PushAnnouncement => "pushAnnouncement"@,
        ImUrl::GetAnnouncementList => "getAnnouncementList"@,
        ImUrl::ApplyGroup => "applyGroup"@,
        ImUrl::SearchGroup => "searchGroup"@,
        ImUrl::UpdateMyRoomInfo => "updateMyRoomInfo"@,
        ImUrl::UpdateRoomInfo => "updateRoomInfo"@,
        ImUrl::GroupInfo => "groupInfo"@,
        ImUrl::Shield => "shield"@,
        ImUrl::Notification => "notification"@,
        ImUrl::DeleteSession => "deleteSession"@,
        ImUrl::SetSessionTop => "setSessionTop"@,
        ImUrl::SessionDetail => "sessionDetail"@,
        ImUrl::GetMsgReadCount => "getMsgReadCount"@,
        ImUrl::GetMsgReadList => "getMsgReadList"@,
        ImUrl::HandleInvite => "handleInvite"@,
        ImUrl::NoticeUnReadCount => "noticeUnReadCount"@,
        ImUrl::RequestNoticePage => "requestNoticePage"@,
        ImUrl::ChangeUserState => "changeUserState"@,
        ImUrl::GetAllUserState => "getAllUserState"@,
        ImUrl::GetEmoji => "getEmoji"@,
        ImUrl::DeleteEmoji => "deleteEmoji"@,
        ImUrl::AddEmoji => "addEmoji"@,
        ImUrl::RecallMsg => "recallMsg"@,
        ImUrl::BlockUser => "blockUser"@,
        ImUrl::MarkMsg => "markMsg"@,
        ImUrl::ModifyUserInfo => "ModifyUserInfo"@,
        ImUrl::GetUserInfoDetail => "getUserInfoDetail"@,
        ImUrl::GetMsgList => "getMsgList"@,
        ImUrl::GetMsgPage => "getMsgPage"@,
        ImUrl::GetAllUserBaseInfo => "getAllUserBaseInfo"@,
        ImUrl::GetMemberStatistic => "getMemberStatistic"@,
        ImUrl::SendMsg => "sendMsg"@,
        ImUrl::SetHide => "setHide"@,
        ImUrl::MarkMsgRead => "markMsgRead"@,
        ImUrl::CheckEmail => "checkEmail"@,
        ImUrl::MergeMsg => "mergeMsg"@,
        ImUrl::GetUserByIds => "getUserByIds"@,
        ImUrl::GenerateQRCode => "generateQRCode"@,
        ImUrl::CheckQRStatus => "checkQRStatus"@,
        ImUrl::ScanQRCode => "scanQRCode"@,
        ImUrl::ConfirmQRCode => "confirmQRCode"@,
    }
}

impl ImUrl {
    /// The method and route of this operation.
    pub fn get_url(&self) -> (r: (HttpMethod, &'static str))
        ensures
            r.0 == spec_url_method(*self),
            r.1@ == spec_url_path(*self),
    {
        match self {
            ImUrl::Login => (HttpMethod::Post, "oauth/anyTenant/login"),
            ImUrl::RefreshToken => (HttpMethod::Post, "oauth/anyTenant/refresh"),
            ImUrl::ForgetPassword => (HttpMethod::Put, "oauth/anyTenant/password"),
            ImUrl::CheckToken => (HttpMethod::Post, "oauth/check"),
            ImUrl::Logout => (HttpMethod::Post, "oauth/anyUser/logout"),
            ImUrl::Register => (HttpMethod::Post, "oauth/anyTenant/registerByEmail"),
            ImUrl::InitConfig => (HttpMethod::Get, "system/anyTenant/config/init"),
            ImUrl::GetAssistantModelList => (HttpMethod::Get, "system/model/list"),
            ImUrl::SendCaptcha => (HttpMethod::Post, "oauth/anyTenant/sendEmailCode"),
            ImUrl::GetCaptcha => (HttpMethod::Get, "oauth/anyTenant/captcha"),
            ImUrl::Announcement => (HttpMethod::Get, "im/room/announcement"),
            ImUrl::EditAnnouncement => (HttpMethod::Post, "im/room/announcement/edit"),
            ImUrl::DeleteAnnouncement => (HttpMethod::Post, "im/room/announcement/delete"),
            ImUrl::PushAnnouncement => (HttpMethod::Post, "im/room/announcement/push"),
            ImUrl::GetAnnouncementList => (HttpMethod::Get, "im/room/announcement/list"),
            ImUrl::ApplyGroup => (HttpMethod::Post, "im/room/apply/group"),
            ImUrl::SearchGroup => (HttpMethod::Get, "im/room/search"),
            ImUrl::UpdateMyRoomInfo => (HttpMethod::Post, "im/room/updateMyRoomInfo"),
            ImUrl::UpdateRoomInfo => (HttpMethod::Post, "im/room/updateRoomInfo"),
            ImUrl::GroupInfo => (HttpMethod::Get, "im/room/group/info"),
            ImUrl::Shield => (HttpMethod::Post, "im/chat/setShield"),
            ImUrl::Notification => (HttpMethod::Post, "im/chat/notification"),
            ImUrl::DeleteSession => (HttpMethod::Delete, "im/chat/delete"),
            ImUrl::SetSessionTop => (HttpMethod::Post, "im/chat/setTop"),
            ImUrl::SessionDetail => (HttpMethod::Get, "im/chat/contact/detail"),
            ImUrl::GetMsgReadCount => (HttpMethod::Get, "im/chat/msg/read"),
            ImUrl::GetMsgReadList => (HttpMethod::Get, "im/chat/msg/read/page"),
            ImUrl::HandleInvite => (HttpMethod::Post, "im/room/apply/handler/apply"),
            ImUrl::NoticeUnReadCount => (HttpMethod::Get, "im/room/notice/unread"),
            ImUrl::RequestNoticePage => (HttpMethod::Get, "im/room/notice/page"),
            ImUrl::ChangeUserState => (HttpMethod::Post, "im/user/state/changeState"),
            ImUrl::GetAllUserState => (HttpMethod::Get, "im/user/state/list"),
            ImUrl::GetEmoji => (HttpMethod::Get, "im/user/emoji/list"),
            ImUrl::DeleteEmoji => (HttpMethod::Delete, "im/user/emoji"),
            ImUrl::AddEmoji => (HttpMethod::Post, "im/user/emoji"),
            ImUrl::RecallMsg => (HttpMethod::Put, "im/chat/msg/recall"),
            ImUrl::BlockUser => (HttpMethod::Put, "im/user/black"),
            ImUrl::MarkMsg => (HttpMethod::Put, "im/chat/msg/mark"),
            ImUrl::ModifyUserInfo => (HttpMethod::Put, "im/user/info"),
            ImUrl::GetUserInfoDetail => (HttpMethod::Get, "im/user/userInfo"),
            ImUrl::GetMsgList => (HttpMethod::Post, "im/chat/msg/list"),
            ImUrl::GetMsgPage => (HttpMethod::Get, "im/chat/msg/page"),
            ImUrl::GetAllUserBaseInfo => (HttpMethod::Get, "im/room/group/member/list"),
            ImUrl::GetMemberStatistic => (HttpMethod::Get, "im/chat/member/statistic"),
            ImUrl::SendMsg => (HttpMethod::Post, "im/chat/msg"),
            ImUrl::SetHide => (HttpMethod::Post, "im/chat/setHide"),
            ImUrl::MarkMsgRead => (HttpMethod::Put, "im/chat/msg/read"),
            ImUrl::CheckEmail => (HttpMethod::Get, "oauth/anyTenant/checkEmail"),
            ImUrl::MergeMsg => (HttpMethod::Post, "im/room/mergeMessage"),
            ImUrl::GetUserByIds => (HttpMethod::Post, "im/user/getUserByIds"),
            ImUrl::GenerateQRCode => (HttpMethod::Get, "oauth/anyTenant/qr/generate"),
            ImUrl::CheckQRStatus => (HttpMethod::Get, "oauth/anyTenant/qr/status/query"),
            ImUrl::ScanQRCode => (HttpMethod::Post, "oauth/qrcode/scan"),
            ImUrl::ConfirmQRCode => (HttpMethod::Post, "oauth/qrcode/confirm"),
        }
    }

    /// Resolves a symbolic operation name. Succeeds exactly on the
    /// names of the catalog; any other string is an unknown operation.
    pub fn from_str(s: &str) -> (r: Result<ImUrl, AppError>)
        ensures
            r matches Ok(u) ==> spec_url_key(u) == s@,
            r is Err ==> forall|u: ImUrl| spec_url_key(u) != s@,
            r matches Err(e) ==> e matches AppError::Request(m)
                && m@ == "Unknown URL type: "@ + s@,
    {
        let r = if str_eq(s, "login") { Some(ImUrl::Login) }
        else if str_eq(s, "refreshToken") { Some(ImUrl::RefreshToken) }
        else if str_eq(s, "forgetPassword") { Some(ImUrl::ForgetPassword) }
        else if str_eq(s, "checkToken") { Some(ImUrl::CheckToken) }
        else if str_eq(s, "logout") { Some(ImUrl::Logout) }
        else if str_eq(s, "register") { Some(ImUrl::Register) }
        else if str_eq(s, "initConfig") { Some(ImUrl::InitConfig) }
        else if str_eq(s, "getAssistantModelList") { Some(ImUrl::GetAssistantModelList) }
        else if str_eq(s, "sendCaptcha") { Some(ImUrl::SendCaptcha) }
        else if str_eq(s, "getCaptcha") { Some(ImUrl::GetCaptcha) }
        else if str_eq(s, "announcement") { Some(ImUrl::Announcement) }
        else if str_eq(s, "editAnnouncement") { Some(ImUrl::EditAnnouncement) }
        else if str_eq(s, "deleteAnnouncement") { Some(ImUrl::DeleteAnnouncement) }
        else if str_eq(s, "pushAnnouncement") { Some(ImUrl::PushAnnouncement) }
        else if str_eq(s, "getAnnouncementList") { Some(ImUrl::GetAnnouncementList) }
        else if str_eq(s, "applyGroup") { Some(ImUrl::ApplyGroup) }
        else if str_eq(s, "searchGroup") { Some(ImUrl::SearchGroup) }
        else if str_eq(s, "updateMyRoomInfo") { Some(ImUrl::UpdateMyRoomInfo) }
        else if str_eq(s, "updateRoomInfo") { Some(ImUrl::UpdateRoomInfo) }
        else if str_eq(s, "groupInfo") { Some(ImUrl::GroupInfo) }
        else if str_eq(s, "shield") { Some(ImUrl::Shield) }
        else if str_eq(s, "notification") { Some(ImUrl::Notification) }
        else if str_eq(s, "deleteSession") { Some(ImUrl::DeleteSession) }
        else if str_eq(s, "setSessionTop") { Some(ImUrl::SetSessionTop) }
        else if str_eq(s, "sessionDetail") { Some(ImUrl::SessionDetail) }
        else if str_eq(s, "getMsgReadCount") { Some(ImUrl::GetMsgReadCount) }
        else if str_eq(s, "getMsgReadList") { Some(ImUrl::GetMsgReadList) }
        else if str_eq(s, "handleInvite") { Some(ImUrl::HandleInvite) }
        else if str_eq(s, "noticeUnReadCount") { Some(ImUrl::NoticeUnReadCount) }
        else if str_eq(s, "requestNoticePage") { Some(ImUrl::RequestNoticePage) }
        else if str_eq(s, "changeUserState") { Some(ImUrl::ChangeUserState) }
        else if str_eq(s, "getAllUserState") { Some(ImUrl::GetAllUserState) }
        else if str_eq(s, "getEmoji") { Some(ImUrl::GetEmoji) }
        else if str_eq(s, "deleteEmoji") { Some(ImUrl::DeleteEmoji) }
        else if str_eq(s, "addEmoji") { Some(ImUrl::AddEmoji) }
        else if str_eq(s, "recallMsg") { Some(ImUrl::RecallMsg) }
        else if str_eq(s, "blockUser") { Some(ImUrl::BlockUser) }
        else if str_eq(s, "markMsg") { Some(ImUrl::MarkMsg) }
        else if str_eq(s, "ModifyUserInfo") { Some(ImUrl::ModifyUserInfo) }
        else if str_eq(s, "getUserInfoDetail") { Some(ImUrl::GetUserInfoDetail) }
        else if str_eq(s, "getMsgList") { Some(ImUrl::GetMsgList) }
        else if str_eq(s, "getMsgPage") { Some(ImUrl::GetMsgPage) }
        else if str_eq(s, "getAllUserBaseInfo") { Some(ImUrl::GetAllUserBaseInfo) }
        else if str_eq(s, "getMemberStatistic") { Some(ImUrl::GetMemberStatistic) }
        else if str_eq(s, "sendMsg") { Some(ImUrl::SendMsg) }
        else if str_eq(s, "setHide") { Some(ImUrl::SetHide) }
        else if str_eq(s, "markMsgRead") { Some(ImUrl::MarkMsgRead) }
        else if str_eq(s, "checkEmail") { Some(ImUrl::CheckEmail) }
        else if str_eq(s, "mergeMsg") { Some(ImUrl::MergeMsg) }
        else if str_eq(s, "getUserByIds") { Some(ImUrl::GetUserByIds) }
        else if str_eq(s, "generateQRCode") { Some(ImUrl::GenerateQRCode) }
        else if str_eq(s, "checkQRStatus") { Some(ImUrl::CheckQRStatus) }
        else if str_eq(s, "scanQRCode") { Some(ImUrl::ScanQRCode) }
        else if str_eq(s, "confirmQRCode") { Some(ImUrl::ConfirmQRCode) }
        else { None };
        match r {
            Some(u) => Ok(u),
            None => {
                proof {
                    assert forall|u: ImUrl| spec_url_key(u) != s@ by {
                    }
                }
                let mut m = String::from_str("Unknown URL type: ");
                m.append(s);
                Err(AppError::Request(m))
            },
        }
    }
}

} // verus!
