use vstd::prelude::*;
use vstd::string::StringExecFns;

use crate::tags::TagMap;

verus! {

/// Stable error codes shared by every component; the thousands digit gives the family.
#[derive(Debug, Clone, Copy, PartialEq, Eq, Hash, Structural)]
pub enum ErrorCode {
    ConnectionFailed,
    ConnectionTimeout,
    ConnectionClosed,
    ConnectionRefused,
    ConnectionLimitExceeded,
    NotConnected,
    ConnectionReconnecting,
    AuthenticationFailed,
    AuthenticationExpired,
    AuthenticationInvalid,
    AuthenticationRequired,
    PermissionDenied,
    TokenInvalid,
    TokenExpired,
    ProtocolError,
    ProtocolVersionMismatch,
    ProtocolNotSupported,
    MessageFormatError,
    MessageTooLarge,
    InvalidCommand,
    MessageSendFailed,
    MessageDeliveryFailed,
    MessageNotFound,
    MessageExpired,
    MessageRateLimitExceeded,
    MessageDecodeFailed,
    UserNotFound,
    UserOffline,
    UserBlocked,
    UserQuotaExceeded,
    UserSessionLimitExceeded,
    InternalError,
    ServiceUnavailable,
    ResourceExhausted,
    ConfigurationError,
    DatabaseError,
    NetworkError,
    NetworkTimeout,
    NetworkUnreachable,
    NetworkConnectionLost,
    SerializationError,
    DeserializationError,
    EncodingError,
    GeneralError,
    InvalidParameter,
    OperationNotSupported,
    OperationFailed,
    OperationTimeout,
    UnknownError,
}

/// Broad family an error code belongs to, fixed by the thousands digit of its number.
#[derive(Debug, Clone, Copy, PartialEq, Eq, Hash, Structural)]
pub enum ErrorCategory {
    Connection,
    Authentication,
    Protocol,
    Message,
    User,
    System,
    Network,
    Serialization,
    General,
}

/// The number carried on the wire for a code.
pub open spec fn code_number(c: ErrorCode) -> u32 {
    match c {
        ErrorCode::ConnectionFailed => 1000,
        ErrorCode::ConnectionTimeout => 1001,
        ErrorCode::ConnectionClosed => 1002,
        ErrorCode::ConnectionRefused => 1003,
        ErrorCode::ConnectionLimitExceeded => 1004,
        ErrorCode::NotConnected => 1005,
        ErrorCode::ConnectionReconnecting => 1006,
        ErrorCode::AuthenticationFailed => 2000,
        ErrorCode::AuthenticationExpired => 2001,
        ErrorCode::AuthenticationInvalid => 2002,
        ErrorCode::AuthenticationRequired => 2003,
        ErrorCode::PermissionDenied => 2004,
        ErrorCode::TokenInvalid => 2005,
        ErrorCode::TokenExpired => 2006,
        ErrorCode::ProtocolError => 3000,
        ErrorCode::ProtocolVersionMismatch => 3001,
        ErrorCode::ProtocolNotSupported => 3002,
        ErrorCode::MessageFormatError => 3003,
        ErrorCode::MessageTooLarge => 3004,
        ErrorCode::InvalidCommand => 3005,
        ErrorCode::MessageSendFailed => 4000,
        ErrorCode::MessageDeliveryFailed => 4001,
        ErrorCode::MessageNotFound => 4002,
        ErrorCode::MessageExpired => 4003,
        ErrorCode::MessageRateLimitExceeded => 4004,
        ErrorCode::MessageDecodeFailed => 4005,
        ErrorCode::UserNotFound => 5000,
        ErrorCode::UserOffline => 5001,
        ErrorCode::UserBlocked => 5002,
        ErrorCode::UserQuotaExceeded => 5003,
        ErrorCode::UserSessionLimitExceeded => 5004,
        ErrorCode::InternalError => 6000,
        ErrorCode::ServiceUnavailable => 6001,
        ErrorCode::ResourceExhausted => 6002,
        ErrorCode::ConfigurationError => 6003,
        ErrorCode::DatabaseError => 6004,
        ErrorCode::NetworkError => 7000,
        ErrorCode::NetworkTimeout => 7001,
        ErrorCode::NetworkUnreachable => 7002,
        ErrorCode::NetworkConnectionLost => 7003,
        ErrorCode::SerializationError => 8000,
        ErrorCode::DeserializationError => 8001,
        ErrorCode::EncodingError => 8002,
        ErrorCode::GeneralError => 9000,
        ErrorCode::InvalidParameter => 9001,
        ErrorCode::OperationNotSupported => 9002,
        ErrorCode::OperationFailed => 9003,
        ErrorCode::OperationTimeout => 9004,
        ErrorCode::UnknownError => 9999,
    }
}

/// The code carried by a wire number, if any.
pub open spec fn code_of_number(n: u32) -> Option<ErrorCode> {
    if n == 1000 {
        Some(ErrorCode::ConnectionFailed)
    } else if n == 1001 {
        Some(ErrorCode::ConnectionTimeout)
    } else if n == 1002 {
        Some(ErrorCode::ConnectionClosed)
    } else if n == 1003 {
        Some(ErrorCode::ConnectionRefused)
    } else if n == 1004 {
        Some(ErrorCode::ConnectionLimitExceeded)
    } else if n == 1005 {
        Some(ErrorCode::NotConnected)
    } else if n == 1006 {
        Some(ErrorCode::ConnectionReconnecting)
    } else if n == 2000 {
        Some(ErrorCode::AuthenticationFailed)
    } else if n == 2001 {
        Some(ErrorCode::AuthenticationExpired)
    } else if n == 2002 {
        Some(ErrorCode::AuthenticationInvalid)
    } else if n == 2003 {
        Some(ErrorCode::AuthenticationRequired)
    } else if n == 2004 {
        Some(ErrorCode::PermissionDenied)
    } else if n == 2005 {
        Some(ErrorCode::TokenInvalid)
    } else if n == 2006 {
        Some(ErrorCode::TokenExpired)
    } else if n == 3000 {
        Some(ErrorCode::ProtocolError)
    } else if n == 3001 {
        Some(ErrorCode::ProtocolVersionMismatch)
    } else if n == 3002 {
        Some(ErrorCode::ProtocolNotSupported)
    } else if n == 3003 {
        Some(ErrorCode::MessageFormatError)
    } else if n == 3004 {
        Some(ErrorCode::MessageTooLarge)
    } else if n == 3005 {
        Some(ErrorCode::InvalidCommand)
    } else if n == 4000 {
        Some(ErrorCode::MessageSendFailed)
    } else if n == 4001 {
        Some(ErrorCode::MessageDeliveryFailed)
    } else if n == 4002 {
        Some(ErrorCode::MessageNotFound)
    } else if n == 4003 {
        Some(ErrorCode::MessageExpired)
    } else if n == 4004 {
        Some(ErrorCode::MessageRateLimitExceeded)
    } else if n == 4005 {
        Some(ErrorCode::MessageDecodeFailed)
    } else if n == 5000 {
        Some(ErrorCode::UserNotFound)
    } else if n == 5001 {
        Some(ErrorCode::UserOffline)
    } else if n == 5002 {
        Some(ErrorCode::UserBlocked)
    } else if n == 5003 {
        Some(ErrorCode::UserQuotaExceeded)
    } else if n == 5004 {
        Some(ErrorCode::UserSessionLimitExceeded)
    } else if n == 6000 {
        Some(ErrorCode::InternalError)
    } else if n == 6001 {
        Some(ErrorCode::ServiceUnavailable)
    } else if n == 6002 {
        Some(ErrorCode::ResourceExhausted)
    } else if n == 6003 {
        Some(ErrorCode::ConfigurationError)
    } else if n == 6004 {
        Some(ErrorCode::DatabaseError)
    } else if n == 7000 {
        Some(ErrorCode::NetworkError)
    } else if n == 7001 {
        Some(ErrorCode::NetworkTimeout)
    } else if n == 7002 {
        Some(ErrorCode::NetworkUnreachable)
    } else if n == 7003 {
        Some(ErrorCode::NetworkConnectionLost)
    } else if n == 8000 {
        Some(ErrorCode::SerializationError)
    } else if n == 8001 {
        Some(ErrorCode::DeserializationError)
    } else if n == 8002 {
        Some(ErrorCode::EncodingError)
    } else if n == 9000 {
        Some(ErrorCode::GeneralError)
    } else if n == 9001 {
        Some(ErrorCode::InvalidParameter)
    } else if n == 9002 {
        Some(ErrorCode::OperationNotSupported)
    } else if n == 9003 {
        Some(ErrorCode::OperationFailed)
    } else if n == 9004 {
        Some(ErrorCode::OperationTimeout)
    } else if n == 9999 {
        Some(ErrorCode::UnknownError)
    } else {
        None
    }
}

/// The upper-case symbolic name of a code.
pub open spec fn code_name(c: ErrorCode) -> Seq<char> {
    match c {
        ErrorCode::ConnectionFailed => "CONNECTION_FAILED"@,
        ErrorCode::ConnectionTimeout => "CONNECTION_TIMEOUT"@,
        ErrorCode::ConnectionClosed => "CONNECTION_CLOSED"@,
        ErrorCode::ConnectionRefused => "CONNECTION_REFUSED"@,
        ErrorCode::ConnectionLimitExceeded => "CONNECTION_LIMIT_EXCEEDED"@,
        ErrorCode::NotConnected => "NOT_CONNECTED"@,
        ErrorCode::ConnectionReconnecting => "CONNECTION_RECONNECTING"@,
        ErrorCode::AuthenticationFailed => "AUTHENTICATION_FAILED"@,
        ErrorCode::AuthenticationExpired => "AUTHENTICATION_EXPIRED"@,
        ErrorCode::AuthenticationInvalid => "AUTHENTICATION_INVALID"@,
        ErrorCode::AuthenticationRequired => "AUTHENTICATION_REQUIRED"@,
        ErrorCode::PermissionDenied => "PERMISSION_DENIED"@,
        ErrorCode::TokenInvalid => "TOKEN_INVALID"@,
        ErrorCode::TokenExpired => "TOKEN_EXPIRED"@,
        ErrorCode::ProtocolError => "PROTOCOL_ERROR"@,
        ErrorCode::ProtocolVersionMismatch => "PROTOCOL_VERSION_MISMATCH"@,
        ErrorCode::ProtocolNotSupported => "PROTOCOL_NOT_SUPPORTED"@,
        ErrorCode::MessageFormatError => "MESSAGE_FORMAT_ERROR"@,
        ErrorCode::MessageTooLarge => "MESSAGE_TOO_LARGE"@,
        ErrorCode::InvalidCommand => "INVALID_COMMAND"@,
        ErrorCode::MessageSendFailed => "MESSAGE_SEND_FAILED"@,
        ErrorCode::MessageDeliveryFailed => "MESSAGE_DELIVERY_FAILED"@,
        ErrorCode::MessageNotFound => "MESSAGE_NOT_FOUND"@,
        ErrorCode::MessageExpired => "MESSAGE_EXPIRED"@,
        ErrorCode::MessageRateLimitExceeded => "MESSAGE_RATE_LIMIT_EXCEEDED"@,
        ErrorCode::MessageDecodeFailed => "MESSAGE_DECODE_FAILED"@,
        ErrorCode::UserNotFound => "USER_NOT_FOUND"@,
        ErrorCode::UserOffline => "USER_OFFLINE"@,
        ErrorCode::UserBlocked => "USER_BLOCKED"@,
        ErrorCode::UserQuotaExceeded => "USER_QUOTA_EXCEEDED"@,
        ErrorCode::UserSessionLimitExceeded => "USER_SESSION_LIMIT_EXCEEDED"@,
        ErrorCode::InternalError => "INTERNAL_ERROR"@,
        ErrorCode::ServiceUnavailable => "SERVICE_UNAVAILABLE"@,
        ErrorCode::ResourceExhausted => "RESOURCE_EXHAUSTED"@,
        ErrorCode::ConfigurationError => "CONFIGURATION_ERROR"@,
        ErrorCode::DatabaseError => "DATABASE_ERROR"@,
        ErrorCode::NetworkError => "NETWORK_ERROR"@,
        ErrorCode::NetworkTimeout => "NETWORK_TIMEOUT"@,
        ErrorCode::NetworkUnreachable => "NETWORK_UNREACHABLE"@,
        ErrorCode::NetworkConnectionLost => "NETWORK_CONNECTION_LOST"@,
        ErrorCode::SerializationError => "SERIALIZATION_ERROR"@,
        ErrorCode::DeserializationError => "DESERIALIZATION_ERROR"@,
        ErrorCode::EncodingError => "ENCODING_ERROR"@,
        ErrorCode::GeneralError => "GENERAL_ERROR"@,
        ErrorCode::InvalidParameter => "INVALID_PARAMETER"@,
        ErrorCode::OperationNotSupported => "OPERATION_NOT_SUPPORTED"@,
        ErrorCode::OperationFailed => "OPERATION_FAILED"@,
        ErrorCode::OperationTimeout => "OPERATION_TIMEOUT"@,
        ErrorCode::UnknownError => "UNKNOWN_ERROR"@,
    }
}

/// The family of a wire number: by its thousands digit, anything above 8999 being general.
pub open spec fn category_of_number(n: u32) -> ErrorCategory {
    if 1000 <= n <= 1999 {
        ErrorCategory::Connection
    } else if 2000 <= n <= 2999 {
        ErrorCategory::Authentication
    } else if 3000 <= n <= 3999 {
        ErrorCategory::Protocol
    } else if 4000 <= n <= 4999 {
        ErrorCategory::Message
    } else if 5000 <= n <= 5999 {
        ErrorCategory::User
    } else if 6000 <= n <= 6999 {
        ErrorCategory::System
    } else if 7000 <= n <= 7999 {
        ErrorCategory::Network
    } else if 8000 <= n <= 8999 {
        ErrorCategory::Serialization
    } else {
        ErrorCategory::General
    }
}

/// Codes for conditions that may clear up on their own, so that a caller may try again.
pub open spec fn code_is_retryable(c: ErrorCode) -> bool {
    c == ErrorCode::ConnectionTimeout || c == ErrorCode::ConnectionClosed
        || c == ErrorCode::NetworkTimeout || c == ErrorCode::NetworkConnectionLost
        || c == ErrorCode::ServiceUnavailable || c == ErrorCode::ResourceExhausted
}

impl ErrorCode {
    /// The wire number of this code.
    pub fn as_u32(&self) -> (r: u32)
        ensures
            r == code_number(*self),
    {
        match self {
            ErrorCode::ConnectionFailed => 1000,
            ErrorCode::ConnectionTimeout => 1001,
            ErrorCode::ConnectionClosed => 1002,
            ErrorCode::ConnectionRefused => 1003,
            ErrorCode::ConnectionLimitExceeded => 1004,
            ErrorCode::NotConnected => 1005,
            ErrorCode::ConnectionReconnecting => 1006,
            ErrorCode::AuthenticationFailed => 2000,
            ErrorCode::AuthenticationExpired => 2001,
            ErrorCode::AuthenticationInvalid => 2002,
            ErrorCode::AuthenticationRequired => 2003,
            ErrorCode::PermissionDenied => 2004,
            ErrorCode::TokenInvalid => 2005,
            ErrorCode::TokenExpired => 2006,
            ErrorCode::ProtocolError => 3000,
            ErrorCode::ProtocolVersionMismatch => 3001,
            ErrorCode::ProtocolNotSupported => 3002,
            ErrorCode::MessageFormatError => 3003,
            ErrorCode::MessageTooLarge => 3004,
            ErrorCode::InvalidCommand => 3005,
            ErrorCode::MessageSendFailed => 4000,
            ErrorCode::MessageDeliveryFailed => 4001,
            ErrorCode::MessageNotFound => 4002,
            ErrorCode::MessageExpired => 4003,
            ErrorCode::MessageRateLimitExceeded => 4004,
            ErrorCode::MessageDecodeFailed => 4005,
            ErrorCode::UserNotFound => 5000,
            ErrorCode::UserOffline => 5001,
            ErrorCode::UserBlocked => 5002,
            ErrorCode::UserQuotaExceeded => 5003,
            ErrorCode::UserSessionLimitExceeded => 5004,
            ErrorCode::InternalError => 6000,
            ErrorCode::ServiceUnavailable => 6001,
            ErrorCode::ResourceExhausted => 6002,
            ErrorCode::ConfigurationError => 6003,
            ErrorCode::DatabaseError => 6004,
            ErrorCode::NetworkError => 7000,
            ErrorCode::NetworkTimeout => 7001,
            ErrorCode::NetworkUnreachable => 7002,
            ErrorCode::NetworkConnectionLost => 7003,
            ErrorCode::SerializationError => 8000,
            ErrorCode::DeserializationError => 8001,
            ErrorCode::EncodingError => 8002,
            ErrorCode::GeneralError => 9000,
            ErrorCode::InvalidParameter => 9001,
            ErrorCode::OperationNotSupported => 9002,
            ErrorCode::OperationFailed => 9003,
            ErrorCode::OperationTimeout => 9004,
            ErrorCode::UnknownError => 9999,
        }
    }

    /// The code with the given wire number; `None` for a number that names no code.
    pub fn from_u32(code: u32) -> (r: Option<ErrorCode>)
        ensures
            r == code_of_number(code),
    {
        match code {
            1000 => Some(ErrorCode::ConnectionFailed),
            1001 => Some(ErrorCode::ConnectionTimeout),
            1002 => Some(ErrorCode::ConnectionClosed),
            1003 => Some(ErrorCode::ConnectionRefused),
            1004 => Some(ErrorCode::ConnectionLimitExceeded),
            1005 => Some(ErrorCode::NotConnected),
            1006 => Some(ErrorCode::ConnectionReconnecting),
            2000 => Some(ErrorCode::AuthenticationFailed),
            2001 => Some(ErrorCode::AuthenticationExpired),
            2002 => Some(ErrorCode::AuthenticationInvalid),
            2003 => Some(ErrorCode::AuthenticationRequired),
            2004 => Some(ErrorCode::PermissionDenied),
            2005 => Some(ErrorCode::TokenInvalid),
            2006 => Some(ErrorCode::TokenExpired),
            3000 => Some(ErrorCode::ProtocolError),
            3001 => Some(ErrorCode::ProtocolVersionMismatch),
            3002 => Some(ErrorCode::ProtocolNotSupported),
            3003 => Some(ErrorCode::MessageFormatError),
            3004 => Some(ErrorCode::MessageTooLarge),
            3005 => Some(ErrorCode::InvalidCommand),
            4000 => Some(ErrorCode::MessageSendFailed),
            4001 => Some(ErrorCode::MessageDeliveryFailed),
            4002 => Some(ErrorCode::MessageNotFound),
            4003 => Some(ErrorCode::MessageExpired),
            4004 => Some(ErrorCode::MessageRateLimitExceeded),
            4005 => Some(ErrorCode::MessageDecodeFailed),
            5000 => Some(ErrorCode::UserNotFound),
            5001 => Some(ErrorCode::UserOffline),
            5002 => Some(ErrorCode::UserBlocked),
            5003 => Some(ErrorCode::UserQuotaExceeded),
            5004 => Some(ErrorCode::UserSessionLimitExceeded),
            6000 => Some(ErrorCode::InternalError),
            6001 => Some(ErrorCode::ServiceUnavailable),
            6002 => Some(ErrorCode::ResourceExhausted),
            6003 => Some(ErrorCode::ConfigurationError),
            6004 => Some(ErrorCode::DatabaseError),
            7000 => Some(ErrorCode::NetworkError),
            7001 => Some(ErrorCode::NetworkTimeout),
            7002 => Some(ErrorCode::NetworkUnreachable),
            7003 => Some(ErrorCode::NetworkConnectionLost),
            8000 => Some(ErrorCode::SerializationError),
            8001 => Some(ErrorCode::DeserializationError),
            8002 => Some(ErrorCode::EncodingError),
            9000 => Some(ErrorCode::GeneralError),
            9001 => Some(ErrorCode::InvalidParameter),
            9002 => Some(ErrorCode::OperationNotSupported),
            9003 => Some(ErrorCode::OperationFailed),
            9004 => Some(ErrorCode::OperationTimeout),
            9999 => Some(ErrorCode::UnknownError),
            _ => None,
        }
    }

    /// The upper-case symbolic name of this code.
    pub fn as_str(&self) -> (r: &'static str)
        ensures
            r@ == code_name(*self),
    {
        match self {
            ErrorCode::ConnectionFailed => "CONNECTION_FAILED",
            ErrorCode::ConnectionTimeout => "CONNECTION_TIMEOUT",
            ErrorCode::ConnectionClosed => "CONNECTION_CLOSED",
            ErrorCode::ConnectionRefused => "CONNECTION_REFUSED",
            ErrorCode::ConnectionLimitExceeded => "CONNECTION_LIMIT_EXCEEDED",
            ErrorCode::NotConnected => "NOT_CONNECTED",
            ErrorCode::ConnectionReconnecting => "CONNECTION_RECONNECTING",
            ErrorCode::AuthenticationFailed => "AUTHENTICATION_FAILED",
            ErrorCode::AuthenticationExpired => "AUTHENTICATION_EXPIRED",
            ErrorCode::AuthenticationInvalid => "AUTHENTICATION_INVALID",
            ErrorCode::AuthenticationRequired => "AUTHENTICATION_REQUIRED",
            ErrorCode::PermissionDenied => "PERMISSION_DENIED",
            ErrorCode::TokenInvalid => "TOKEN_INVALID",
            ErrorCode::TokenExpired => "TOKEN_EXPIRED",
            ErrorCode::ProtocolError => "PROTOCOL_ERROR",
            ErrorCode::ProtocolVersionMismatch => "PROTOCOL_VERSION_MISMATCH",
            ErrorCode::ProtocolNotSupported => "PROTOCOL_NOT_SUPPORTED",
            ErrorCode::MessageFormatError => "MESSAGE_FORMAT_ERROR",
            ErrorCode::MessageTooLarge => "MESSAGE_TOO_LARGE",
            ErrorCode::InvalidCommand => "INVALID_COMMAND",
            ErrorCode::MessageSendFailed => "MESSAGE_SEND_FAILED",
            ErrorCode::MessageDeliveryFailed => "MESSAGE_DELIVERY_FAILED",
            ErrorCode::MessageNotFound => "MESSAGE_NOT_FOUND",
            ErrorCode::MessageExpired => "MESSAGE_EXPIRED",
            ErrorCode::MessageRateLimitExceeded => "MESSAGE_RATE_LIMIT_EXCEEDED",
            ErrorCode::MessageDecodeFailed => "MESSAGE_DECODE_FAILED",
            ErrorCode::UserNotFound => "USER_NOT_FOUND",
            ErrorCode::UserOffline => "USER_OFFLINE",
            ErrorCode::UserBlocked => "USER_BLOCKED",
            ErrorCode::UserQuotaExceeded => "USER_QUOTA_EXCEEDED",
            ErrorCode::UserSessionLimitExceeded => "USER_SESSION_LIMIT_EXCEEDED",
            ErrorCode::InternalError => "INTERNAL_ERROR",
            ErrorCode::ServiceUnavailable => "SERVICE_UNAVAILABLE",
            ErrorCode::ResourceExhausted => "RESOURCE_EXHAUSTED",
            ErrorCode::ConfigurationError => "CONFIGURATION_ERROR",
            ErrorCode::DatabaseError => "DATABASE_ERROR",
            ErrorCode::NetworkError => "NETWORK_ERROR",
            ErrorCode::NetworkTimeout => "NETWORK_TIMEOUT",
            ErrorCode::NetworkUnreachable => "NETWORK_UNREACHABLE",
            ErrorCode::NetworkConnectionLost => "NETWORK_CONNECTION_LOST",
            ErrorCode::SerializationError => "SERIALIZATION_ERROR",
            ErrorCode::DeserializationError => "DESERIALIZATION_ERROR",
            ErrorCode::EncodingError => "ENCODING_ERROR",
            ErrorCode::GeneralError => "GENERAL_ERROR",
            ErrorCode::InvalidParameter => "INVALID_PARAMETER",
            ErrorCode::OperationNotSupported => "OPERATION_NOT_SUPPORTED",
            ErrorCode::OperationFailed => "OPERATION_FAILED",
            ErrorCode::OperationTimeout => "OPERATION_TIMEOUT",
            ErrorCode::UnknownError => "UNKNOWN_ERROR",
        }
    }

    /// The family this code belongs to.
    pub fn category(&self) -> (r: ErrorCategory)
        ensures
            r == category_of_number(code_number(*self)),
    {
        let code = self.as_u32();
        if 1000 <= code && code <= 1999 {
            ErrorCategory::Connection
        } else if 2000 <= code && code <= 2999 {
            ErrorCategory::Authentication
        } else if 3000 <= code && code <= 3999 {
            ErrorCategory::Protocol
        } else if 4000 <= code && code <= 4999 {
            ErrorCategory::Message
        } else if 5000 <= code && code <= 5999 {
            ErrorCategory::User
        } else if 6000 <= code && code <= 6999 {
            ErrorCategory::System
        } else if 7000 <= code && code <= 7999 {
            ErrorCategory::Network
        } else if 8000 <= code && code <= 8999 {
            ErrorCategory::Serialization
        } else {
            ErrorCategory::General
        }
    }

    /// Whether a caller may retry an operation that failed with this code.
    pub fn is_retryable(&self) -> (r: bool)
        ensures
            r == code_is_retryable(*self),
    {
        match self {
            ErrorCode::ConnectionTimeout | ErrorCode::ConnectionClosed | ErrorCode::NetworkTimeout
            | ErrorCode::NetworkConnectionLost | ErrorCode::ServiceUnavailable
            | ErrorCode::ResourceExhausted => true,
            _ => false,
        }
    }
}

impl ErrorCategory {
    /// The upper-case name of this family.
    pub fn as_str(&self) -> (r: &'static str)
        ensures
            r@ == category_name(*self),
    {
        match self {
            ErrorCategory::Connection => "CONNECTION",
            ErrorCategory::Authentication => "AUTHENTICATION",
            ErrorCategory::Protocol => "PROTOCOL",
            ErrorCategory::Message => "MESSAGE",
            ErrorCategory::User => "USER",
            ErrorCategory::System => "SYSTEM",
            ErrorCategory::Network => "NETWORK",
            ErrorCategory::Serialization => "SERIALIZATION",
            ErrorCategory::General => "GENERAL",
        }
    }
}

/// The upper-case name of a family.
pub open spec fn category_name(c: ErrorCategory) -> Seq<char> {
    match c {
        ErrorCategory::Connection => "CONNECTION"@,
        ErrorCategory::Authentication => "AUTHENTICATION"@,
        ErrorCategory::Protocol => "PROTOCOL"@,
        ErrorCategory::Message => "MESSAGE"@,
        ErrorCategory::User => "USER"@,
        ErrorCategory::System => "SYSTEM"@,
        ErrorCategory::Network => "NETWORK"@,
        ErrorCategory::Serialization => "SERIALIZATION"@,
        ErrorCategory::General => "GENERAL"@,
    }
}

/// Every code survives the trip through its wire number.
pub proof fn lemma_code_number_round_trip(c: ErrorCode)
    ensures
        code_of_number(code_number(c)) == Some(c),
{
}

/// Assembles a localized error: a code, a reason, optional details and named parameters.
pub struct ErrorBuilder {
    pub code: ErrorCode,
    pub reason: String,
    pub details: Option<String>,
    pub params: Option<TagMap>,
}

/// The parameter map of a builder, empty where none was set.
pub open spec fn params_view(p: Option<TagMap>) -> Map<Seq<char>, Seq<char>> {
    match p {
        Some(m) => m@,
        None => Map::empty(),
    }
}

impl ErrorBuilder {
    /// A builder for `code` with `reason`, no details and no parameters.
    pub fn new(code: ErrorCode, reason: &str) -> (r: ErrorBuilder)
        ensures
            r.code == code,
            r.reason@ == reason@,
            r.details is None,
            r.params is None,
    {
        ErrorBuilder { code, reason: String::from_str(reason), details: None, params: None }
    }

    /// The builder with `details` set.
    pub fn details(self, details: &str) -> (r: ErrorBuilder)
        ensures
            r.code == self.code,
            r.reason == self.reason,
            r.details is Some && r.details->Some_0@ == details@,
            r.params == self.params,
    {
        let mut b = self;
        b.details = Some(String::from_str(details));
        b
    }

    /// The builder with parameter `key` set to `value`.
    pub fn param(self, key: &str, value: &str) -> (r: ErrorBuilder)
        ensures
            r.code == self.code,
            r.reason == self.reason,
            r.details == self.details,
            r.params is Some,
            params_view(r.params) == params_view(self.params).insert(key@, value@),
    {
        let mut b = self;
        let mut params = match b.params {
            Some(p) => p,
            None => TagMap::new(),
        };
        params.insert(String::from_str(key), String::from_str(value));
        b.params = Some(params);
        b
    }
}

} // verus!
