//! The error numbers of the operating system.

use vstd::prelude::*;

verus! {

/// An error number as the operating system reports it.
#[allow(non_camel_case_types)]
#[derive(Clone, Copy, Debug, PartialEq, Eq, Structural, Hash)]
#[non_exhaustive]
pub enum ErrNo {
    /// A number that has no name here, zero among them
    UnknownErrNo,
    /// Not owner
    EPERM,
    /// No such file
    ENOENT,
    ESRCH,
    EINTR,
    EIO,
    ENXIO,
    E2BIG,
    ENOEXEC,
    EBADF,
    ECHILD,
    /// Resource temporarily unavailable (EWOULDBLOCK)
    EAGAIN,
    ENOMEM,
    EACCES,
    EFAULT,
    ENOTBLK,
    EBUSY,
    EEXIST,
    EXDEV,
    ENODEV,
    ENOTDIR,
    EISDIR,
    /// Invalid Parameter
    EINVAL,
    ENFILE,
    EMFILE,
    ENOTTY,
    ETXTBSY,
    EFBIG,
    ENOSPC,
    ESPIPE,
    EROFS,
    EMLINK,
    EPIPE,
    EDOM,
    ERANGE,
    /// Resource deadlock avoided (EDEADLOCK)
    EDEADLK,
    ENAMETOOLONG,
    /// No Avaliable Lock
    ENOLCK,
    ENOSYS,
    ENOTEMPTY,
    ELOOP,
    ENOMSG,
    EIDRM,
    ECHRNG,
    EL2NSYNC,
    EL3HLT,
    EL3RST,
    ELNRNG,
    EUNATCH,
    ENOCSI,
    EL2HLT,
    EBADE,
    EBADR,
    EXFULL,
    ENOANO,
    EBADRQC,
    EBADSLT,
    /// Bad font file format
    EBFONT,
    ENOSTR,
    ENODATA,
    ETIME,
    ENOSR,
    ENONET,
    ENOPKG,
    EREMOTE,
    ENOLINK,
    EADV,
    ESRMNT,
    ECOMM,
    EPROTO,
    EMULTIHOP,
    EDOTDOT,
    EBADMSG,
    EOVERFLOW,
    ENOTUNIQ,
    EBADFD,
    EREMCHG,
    ELIBACC,
    ELIBBAD,
    ELIBSCN,
    ELIBMAX,
    ELIBEXEC,
    EILSEQ,
    ERESTART,
    ESTRPIPE,
    EUSERS,
    ENOTSOCK,
    EDESTADDRREQ,
    EMSGSIZE,
    EPROTOTYPE,
    ENOPROTOOPT,
    EPROTONOSUPPORT,
    ESOCKTNOSUPPORT,
    /// Operation not supported (ENOTSUP)
    EOPNOTSUPP,
    EPFNOSUPPORT,
    EAFNOSUPPORT,
    EADDRINUSE,
    EADDRNOTAVAIL,
    ENETDOWN,
    ENETUNREACH,
    ENETRESET,
    ECONNABORTED,
    ECONNRESET,
    ENOBUFS,
    EISCONN,
    ENOTCONN,
    ESHUTDOWN,
    ETOOMANYREFS,
    ETIMEDOUT,
    ECONNREFUSED,
    EHOSTDOWN,
    EHOSTUNREACH,
    EALREADY,
    EINPROGRESS,
    ESTALE,
    EUCLEAN,
    ENOTNAM,
    ENAVAIL,
    EISNAM,
    EREMOTEIO,
    EDQUOT,
    ENOMEDIUM,
    EMEDIUMTYPE,
    ECANCELED,
    ENOKEY,
    EKEYEXPIRED,
    EKEYREVOKED,
    EKEYREJECTED,
    EOWNERDEAD,
    ENOTRECOVERABLE,
    ERFKILL,
    EHWPOISON,
}

impl ErrNo {
    /// The number of the error.
    pub open spec fn spec_code(self) -> i32 {
        match self {
            ErrNo::UnknownErrNo => 0,
            ErrNo::EPERM => 1,
            ErrNo::ENOENT => 2,
            ErrNo::ESRCH => 3,
            ErrNo::EINTR => 4,
            ErrNo::EIO => 5,
            ErrNo::ENXIO => 6,
            ErrNo::E2BIG => 7,
            ErrNo::ENOEXEC => 8,
            ErrNo::EBADF => 9,
            ErrNo::ECHILD => 10,
            ErrNo::EAGAIN => 11,
            ErrNo::ENOMEM => 12,
            ErrNo::EACCES => 13,
            ErrNo::EFAULT => 14,
            ErrNo::ENOTBLK => 15,
            ErrNo::EBUSY => 16,
            ErrNo::EEXIST => 17,
            ErrNo::EXDEV => 18,
            ErrNo::ENODEV => 19,
            ErrNo::ENOTDIR => 20,
            ErrNo::EISDIR => 21,
            ErrNo::EINVAL => 22,
            ErrNo::ENFILE => 23,
            ErrNo::EMFILE => 24,
            ErrNo::ENOTTY => 25,
            ErrNo::ETXTBSY => 26,
            ErrNo::EFBIG => 27,
            ErrNo::ENOSPC => 28,
            ErrNo::ESPIPE => 29,
            ErrNo::EROFS => 30,
            ErrNo::EMLINK => 31,
            ErrNo::EPIPE => 32,
            ErrNo::EDOM => 33,
            ErrNo::ERANGE => 34,
            ErrNo::EDEADLK => 35,
            ErrNo::ENAMETOOLONG => 36,
            ErrNo::ENOLCK => 37,
            ErrNo::ENOSYS => 38,
            ErrNo::ENOTEMPTY => 39,
            ErrNo::ELOOP => 40,
            ErrNo::ENOMSG => 42,
            ErrNo::EIDRM => 43,
            ErrNo::ECHRNG => 44,
            ErrNo::EL2NSYNC => 45,
            ErrNo::EL3HLT => 46,
            ErrNo::EL3RST => 47,
            ErrNo::ELNRNG => 48,
            ErrNo::EUNATCH => 49,
            ErrNo::ENOCSI => 50,
            ErrNo::EL2HLT => 51,
            ErrNo::EBADE => 52,
            ErrNo::EBADR => 53,
            ErrNo::EXFULL => 54,
            ErrNo::ENOANO => 55,
            ErrNo::EBADRQC => 56,
            ErrNo::EBADSLT => 57,
            ErrNo::EBFONT => 59,
            ErrNo::ENOSTR => 60,
            ErrNo::ENODATA => 61,
            ErrNo::ETIME => 62,
            ErrNo::ENOSR => 63,
            ErrNo::ENONET => 64,
            ErrNo::ENOPKG => 65,
            ErrNo::EREMOTE => 66,
            ErrNo::ENOLINK => 67,
            ErrNo::EADV => 68,
            ErrNo::ESRMNT => 69,
            ErrNo::ECOMM => 70,
            ErrNo::EPROTO => 71,
            ErrNo::EMULTIHOP => 72,
            ErrNo::EDOTDOT => 73,
            ErrNo::EBADMSG => 74,
            ErrNo::EOVERFLOW => 75,
            ErrNo::ENOTUNIQ => 76,
            ErrNo::EBADFD => 77,
            ErrNo::EREMCHG => 78,
            ErrNo::ELIBACC => 79,
            ErrNo::ELIBBAD => 80,
            ErrNo::ELIBSCN => 81,
            ErrNo::ELIBMAX => 82,
            ErrNo::ELIBEXEC => 83,
            ErrNo::EILSEQ => 84,
            ErrNo::ERESTART => 85,
            ErrNo::ESTRPIPE => 86,
            ErrNo::EUSERS => 87,
            ErrNo::ENOTSOCK => 88,
            ErrNo::EDESTADDRREQ => 89,
            ErrNo::EMSGSIZE => 90,
            ErrNo::EPROTOTYPE => 91,
            ErrNo::ENOPROTOOPT => 92,
            ErrNo::EPROTONOSUPPORT => 93,
            ErrNo::ESOCKTNOSUPPORT => 94,
            ErrNo::EOPNOTSUPP => 95,
            ErrNo::EPFNOSUPPORT => 96,
            ErrNo::EAFNOSUPPORT => 97,
            ErrNo::EADDRINUSE => 98,
            ErrNo::EADDRNOTAVAIL => 99,
            ErrNo::ENETDOWN => 100,
            ErrNo::ENETUNREACH => 101,
            ErrNo::ENETRESET => 102,
            ErrNo::ECONNABORTED => 103,
            ErrNo::ECONNRESET => 104,
            ErrNo::ENOBUFS => 105,
            ErrNo::EISCONN => 106,
            ErrNo::ENOTCONN => 107,
            ErrNo::ESHUTDOWN => 108,
            ErrNo::ETOOMANYREFS => 109,
            ErrNo::ETIMEDOUT => 110,
            ErrNo::ECONNREFUSED => 111,
            ErrNo::EHOSTDOWN => 112,
            ErrNo::EHOSTUNREACH => 113,
            ErrNo::EALREADY => 114,
            ErrNo::EINPROGRESS => 115,
            ErrNo::ESTALE => 116,
            ErrNo::EUCLEAN => 117,
            ErrNo::ENOTNAM => 118,
            ErrNo::ENAVAIL => 119,
            ErrNo::EISNAM => 120,
            ErrNo::EREMOTEIO => 121,
            ErrNo::EDQUOT => 122,
            ErrNo::ENOMEDIUM => 123,
            ErrNo::EMEDIUMTYPE => 124,
            ErrNo::ECANCELED => 125,
            ErrNo::ENOKEY => 126,
            ErrNo::EKEYEXPIRED => 127,
            ErrNo::EKEYREVOKED => 128,
            ErrNo::EKEYREJECTED => 129,
            ErrNo::EOWNERDEAD => 130,
            ErrNo::ENOTRECOVERABLE => 131,
            ErrNo::ERFKILL => 132,
            ErrNo::EHWPOISON => 133,
        }
    }

    /// The error with number `val`; a number without a name is
    /// `UnknownErrNo`.
    pub open spec fn spec_from_code(val: i32) -> ErrNo {
        if val == 1 {
            ErrNo::EPERM
        } else if val == 2 {
            ErrNo::ENOENT
        } else if val == 3 {
            ErrNo::ESRCH
        } else if val == 4 {
            ErrNo::EINTR
        } else if val == 5 {
            ErrNo::EIO
        } else if val == 6 {
            ErrNo::ENXIO
        } else if val == 7 {
            ErrNo::E2BIG
        } else if val == 8 {
            ErrNo::ENOEXEC
        } else if val == 9 {
            ErrNo::EBADF
        } else if val == 10 {
            ErrNo::ECHILD
        } else if val == 11 {
            ErrNo::EAGAIN
        } else if val == 12 {
            ErrNo::ENOMEM
        } else if val == 13 {
            ErrNo::EACCES
        } else if val == 14 {
            ErrNo::EFAULT
        } else if val == 15 {
            ErrNo::ENOTBLK
        } else if val == 16 {
            ErrNo::EBUSY
        } else if val == 17 {
            ErrNo::EEXIST
        } else if val == 18 {
            ErrNo::EXDEV
        } else if val == 19 {
            ErrNo::ENODEV
        } else if val == 20 {
            ErrNo::ENOTDIR
        } else if val == 21 {
            ErrNo::EISDIR
        } else if val == 22 {
            ErrNo::EINVAL
        } else if val == 23 {
            ErrNo::ENFILE
        } else if val == 24 {
            ErrNo::EMFILE
        } else if val == 25 {
            ErrNo::ENOTTY
        } else if val == 26 {
            ErrNo::ETXTBSY
        } else if val == 27 {
            ErrNo::EFBIG
        } else if val == 28 {
            ErrNo::ENOSPC
        } else if val == 29 {
            ErrNo::ESPIPE
        } else if val == 30 {
            ErrNo::EROFS
        } else if val == 31 {
            ErrNo::EMLINK
        } else if val == 32 {
            ErrNo::EPIPE
        } else if val == 33 {
            ErrNo::EDOM
        } else if val == 34 {
            ErrNo::ERANGE
        } else if val == 35 {
            ErrNo::EDEADLK
        } else if val == 36 {
            ErrNo::ENAMETOOLONG
        } else if val == 37 {
            ErrNo::ENOLCK
        } else if val == 38 {
            ErrNo::ENOSYS
        } else if val == 39 {
            ErrNo::ENOTEMPTY
        } else if val == 40 {
            ErrNo::ELOOP
        } else if val == 42 {
            ErrNo::ENOMSG
        } else if val == 43 {
            ErrNo::EIDRM
        } else if val == 44 {
            ErrNo::ECHRNG
        } else if val == 45 {
            ErrNo::EL2NSYNC
        } else if val == 46 {
            ErrNo::EL3HLT
        } else if val == 47 {
            ErrNo::EL3RST
        } else if val == 48 {
            ErrNo::ELNRNG
        } else if val == 49 {
            ErrNo::EUNATCH
        } else if val == 50 {
            ErrNo::ENOCSI
        } else if val == 51 {
            ErrNo::EL2HLT
        } else if val == 52 {
            ErrNo::EBADE
        } else if val == 53 {
            ErrNo::EBADR
        } else if val == 54 {
            ErrNo::EXFULL
        } else if val == 55 {
            ErrNo::ENOANO
        } else if val == 56 {
            ErrNo::EBADRQC
        } else if val == 57 {
            ErrNo::EBADSLT
        } else if val == 59 {
            ErrNo::EBFONT
        } else if val == 60 {
            ErrNo::ENOSTR
        } else if val == 61 {
            ErrNo::ENODATA
        } else if val == 62 {
            ErrNo::ETIME
        } else if val == 63 {
            ErrNo::ENOSR
        } else if val == 64 {
            ErrNo::ENONET
        } else if val == 65 {
            ErrNo::ENOPKG
        } else if val == 66 {
            ErrNo::EREMOTE
        } else if val == 67 {
            ErrNo::ENOLINK
        } else if val == 68 {
            ErrNo::EADV
        } else if val == 69 {
            ErrNo::ESRMNT
        } else if val == 70 {
            ErrNo::ECOMM
        } else if val == 71 {
            ErrNo::EPROTO
        } else if val == 72 {
            ErrNo::EMULTIHOP
        } else if val == 73 {
            ErrNo::EDOTDOT
        } else if val == 74 {
            ErrNo::EBADMSG
        } else if val == 75 {
            ErrNo::EOVERFLOW
        } else if val == 76 {
            ErrNo::ENOTUNIQ
        } else if val == 77 {
            ErrNo::EBADFD
        } else if val == 78 {
            ErrNo::EREMCHG
        } else if val == 79 {
            ErrNo::ELIBACC
        } else if val == 80 {
            ErrNo::ELIBBAD
        } else if val == 81 {
            ErrNo::ELIBSCN
        } else if val == 82 {
            ErrNo::ELIBMAX
        } else if val == 83 {
            ErrNo::ELIBEXEC
        } else if val == 84 {
            ErrNo::EILSEQ
        } else if val == 85 {
            ErrNo::ERESTART
        } else if val == 86 {
            ErrNo::ESTRPIPE
        } else if val == 87 {
            ErrNo::EUSERS
        } else if val == 88 {
            ErrNo::ENOTSOCK
        } else if val == 89 {
            ErrNo::EDESTADDRREQ
        } else if val == 90 {
            ErrNo::EMSGSIZE
        } else if val == 91 {
            ErrNo::EPROTOTYPE
        } else if val == 92 {
            ErrNo::ENOPROTOOPT
        } else if val == 93 {
            ErrNo::EPROTONOSUPPORT
        } else if val == 94 {
            ErrNo::ESOCKTNOSUPPORT
        } else if val == 95 {
            ErrNo::EOPNOTSUPP
        } else if val == 96 {
            ErrNo::EPFNOSUPPORT
        } else if val == 97 {
            ErrNo::EAFNOSUPPORT
        } else if val == 98 {
            ErrNo::EADDRINUSE
        } else if val == 99 {
            ErrNo::EADDRNOTAVAIL
        } else if val == 100 {
            ErrNo::ENETDOWN
        } else if val == 101 {
            ErrNo::ENETUNREACH
        } else if val == 102 {
            ErrNo::ENETRESET
        } else if val == 103 {
            ErrNo::ECONNABORTED
        } else if val == 104 {
            ErrNo::ECONNRESET
        } else if val == 105 {
            ErrNo::ENOBUFS
        } else if val == 106 {
            ErrNo::EISCONN
        } else if val == 107 {
            ErrNo::ENOTCONN
        } else if val == 108 {
            ErrNo::ESHUTDOWN
        } else if val == 109 {
            ErrNo::ETOOMANYREFS
        } else if val == 110 {
            ErrNo::ETIMEDOUT
        } else if val == 111 {
            ErrNo::ECONNREFUSED
        } else if val == 112 {
            ErrNo::EHOSTDOWN
        } else if val == 113 {
            ErrNo::EHOSTUNREACH
        } else if val == 114 {
            ErrNo::EALREADY
        } else if val == 115 {
            ErrNo::EINPROGRESS
        } else if val == 116 {
            ErrNo::ESTALE
        } else if val == 117 {
            ErrNo::EUCLEAN
        } else if val == 118 {
            ErrNo::ENOTNAM
        } else if val == 119 {
            ErrNo::ENAVAIL
        } else if val == 120 {
            ErrNo::EISNAM
        } else if val == 121 {
            ErrNo::EREMOTEIO
        } else if val == 122 {
            ErrNo::EDQUOT
        } else if val == 123 {
            ErrNo::ENOMEDIUM
        } else if val == 124 {
            ErrNo::EMEDIUMTYPE
        } else if val == 125 {
            ErrNo::ECANCELED
        } else if val == 126 {
            ErrNo::ENOKEY
        } else if val == 127 {
            ErrNo::EKEYEXPIRED
        } else if val == 128 {
            ErrNo::EKEYREVOKED
        } else if val == 129 {
            ErrNo::EKEYREJECTED
        } else if val == 130 {
            ErrNo::EOWNERDEAD
        } else if val == 131 {
            ErrNo::ENOTRECOVERABLE
        } else if val == 132 {
            ErrNo::ERFKILL
        } else if val == 133 {
            ErrNo::EHWPOISON
        } else {
            ErrNo::UnknownErrNo
        }
    }

    pub fn code(self) -> (r: i32)
        ensures
            r == self.spec_code(),
    {
        match self {
            ErrNo::UnknownErrNo => 0,
            ErrNo::EPERM => 1,
            ErrNo::ENOENT => 2,
            ErrNo::ESRCH => 3,
            ErrNo::EINTR => 4,
            ErrNo::EIO => 5,
            ErrNo::ENXIO => 6,
            ErrNo::E2BIG => 7,
            ErrNo::ENOEXEC => 8,
            ErrNo::EBADF => 9,
            ErrNo::ECHILD => 10,
            ErrNo::EAGAIN => 11,
            ErrNo::ENOMEM => 12,
            ErrNo::EACCES => 13,
            ErrNo::EFAULT => 14,
            ErrNo::ENOTBLK => 15,
            ErrNo::EBUSY => 16,
            ErrNo::EEXIST => 17,
            ErrNo::EXDEV => 18,
            ErrNo::ENODEV => 19,
            ErrNo::ENOTDIR => 20,
            ErrNo::EISDIR => 21,
            ErrNo::EINVAL => 22,
            ErrNo::ENFILE => 23,
            ErrNo::EMFILE => 24,
            ErrNo::ENOTTY => 25,
            ErrNo::ETXTBSY => 26,
            ErrNo::EFBIG => 27,
            ErrNo::ENOSPC => 28,
            ErrNo::ESPIPE => 29,
            ErrNo::EROFS => 30,
            ErrNo::EMLINK => 31,
            ErrNo::EPIPE => 32,
            ErrNo::EDOM => 33,
            ErrNo::ERANGE => 34,
            ErrNo::EDEADLK => 35,
            ErrNo::ENAMETOOLONG => 36,
            ErrNo::ENOLCK => 37,
            ErrNo::ENOSYS => 38,
            ErrNo::ENOTEMPTY => 39,
            ErrNo::ELOOP => 40,
            ErrNo::ENOMSG => 42,
            ErrNo::EIDRM => 43,
            ErrNo::ECHRNG => 44,
            ErrNo::EL2NSYNC => 45,
            ErrNo::EL3HLT => 46,
            ErrNo::EL3RST => 47,
            ErrNo::ELNRNG => 48,
            ErrNo::EUNATCH => 49,
            ErrNo::ENOCSI => 50,
            ErrNo::EL2HLT => 51,
            ErrNo::EBADE => 52,
            ErrNo::EBADR => 53,
            ErrNo::EXFULL => 54,
            ErrNo::ENOANO => 55,
            ErrNo::EBADRQC => 56,
            ErrNo::EBADSLT => 57,
            ErrNo::EBFONT => 59,
            ErrNo::ENOSTR => 60,
            ErrNo::ENODATA => 61,
            ErrNo::ETIME => 62,
            ErrNo::ENOSR => 63,
            ErrNo::ENONET => 64,
            ErrNo::ENOPKG => 65,
            ErrNo::EREMOTE => 66,
            ErrNo::ENOLINK => 67,
            ErrNo::EADV => 68,
            ErrNo::ESRMNT => 69,
            ErrNo::ECOMM => 70,
            ErrNo::EPROTO => 71,
            ErrNo::EMULTIHOP => 72,
            ErrNo::EDOTDOT => 73,
            ErrNo::EBADMSG => 74,
            ErrNo::EOVERFLOW => 75,
            ErrNo::ENOTUNIQ => 76,
            ErrNo::EBADFD => 77,
            ErrNo::EREMCHG => 78,
            ErrNo::ELIBACC => 79,
            ErrNo::ELIBBAD => 80,
            ErrNo::ELIBSCN => 81,
            ErrNo::ELIBMAX => 82,
            ErrNo::ELIBEXEC => 83,
            ErrNo::EILSEQ => 84,
            ErrNo::ERESTART => 85,
            ErrNo::ESTRPIPE => 86,
            ErrNo::EUSERS => 87,
            ErrNo::ENOTSOCK => 88,
            ErrNo::EDESTADDRREQ => 89,
            ErrNo::EMSGSIZE => 90,
            ErrNo::EPROTOTYPE => 91,
            ErrNo::ENOPROTOOPT => 92,
            ErrNo::EPROTONOSUPPORT => 93,
            ErrNo::ESOCKTNOSUPPORT => 94,
            ErrNo::EOPNOTSUPP => 95,
            ErrNo::EPFNOSUPPORT => 96,
            ErrNo::EAFNOSUPPORT => 97,
            ErrNo::EADDRINUSE => 98,
            ErrNo::EADDRNOTAVAIL => 99,
            ErrNo::ENETDOWN => 100,
            ErrNo::ENETUNREACH => 101,
            ErrNo::ENETRESET => 102,
            ErrNo::ECONNABORTED => 103,
            ErrNo::ECONNRESET => 104,
            ErrNo::ENOBUFS => 105,
            ErrNo::EISCONN => 106,
            ErrNo::ENOTCONN => 107,
            ErrNo::ESHUTDOWN => 108,
            ErrNo::ETOOMANYREFS => 109,
            ErrNo::ETIMEDOUT => 110,
            ErrNo::ECONNREFUSED => 111,
            ErrNo::EHOSTDOWN => 112,
            ErrNo::EHOSTUNREACH => 113,
            ErrNo::EALREADY => 114,
            ErrNo::EINPROGRESS => 115,
            ErrNo::ESTALE => 116,
            ErrNo::EUCLEAN => 117,
            ErrNo::ENOTNAM => 118,
            ErrNo::ENAVAIL => 119,
            ErrNo::EISNAM => 120,
            ErrNo::EREMOTEIO => 121,
            ErrNo::EDQUOT => 122,
            ErrNo::ENOMEDIUM => 123,
            ErrNo::EMEDIUMTYPE => 124,
            ErrNo::ECANCELED => 125,
            ErrNo::ENOKEY => 126,
            ErrNo::EKEYEXPIRED => 127,
            ErrNo::EKEYREVOKED => 128,
            ErrNo::EKEYREJECTED => 129,
            ErrNo::EOWNERDEAD => 130,
            ErrNo::ENOTRECOVERABLE => 131,
            ErrNo::ERFKILL => 132,
            ErrNo::EHWPOISON => 133,
        }
    }

    /// Names the error number `val`.
    pub fn from_code(val: i32) -> (r: ErrNo)
        ensures
            r == Self::spec_from_code(val),
            r != ErrNo::UnknownErrNo ==> r.spec_code() == val,
    {
        if val == 1 {
            ErrNo::EPERM
        } else if val == 2 {
            ErrNo::ENOENT
        } else if val == 3 {
            ErrNo::ESRCH
        } else if val == 4 {
            ErrNo::EINTR
        } else if val == 5 {
            ErrNo::EIO
        } else if val == 6 {
            ErrNo::ENXIO
        } else if val == 7 {
            ErrNo::E2BIG
        } else if val == 8 {
            ErrNo::ENOEXEC
        } else if val == 9 {
            ErrNo::EBADF
        } else if val == 10 {
            ErrNo::ECHILD
        } else if val == 11 {
            ErrNo::EAGAIN
        } else if val == 12 {
            ErrNo::ENOMEM
        } else if val == 13 {
            ErrNo::EACCES
        } else if val == 14 {
            ErrNo::EFAULT
        } else if val == 15 {
            ErrNo::ENOTBLK
        } else if val == 16 {
            ErrNo::EBUSY
        } else if val == 17 {
            ErrNo::EEXIST
        } else if val == 18 {
            ErrNo::EXDEV
        } else if val == 19 {
            ErrNo::ENODEV
        } else if val == 20 {
            ErrNo::ENOTDIR
        } else if val == 21 {
            ErrNo::EISDIR
        } else if val == 22 {
            ErrNo::EINVAL
        } else if val == 23 {
            ErrNo::ENFILE
        } else if val == 24 {
            ErrNo::EMFILE
        } else if val == 25 {
            ErrNo::ENOTTY
        } else if val == 26 {
            ErrNo::ETXTBSY
        } else if val == 27 {
            ErrNo::EFBIG
        } else if val == 28 {
            ErrNo::ENOSPC
        } else if val == 29 {
            ErrNo::ESPIPE
        } else if val == 30 {
            ErrNo::EROFS
        } else if val == 31 {
            ErrNo::EMLINK
        } else if val == 32 {
            ErrNo::EPIPE
        } else if val == 33 {
            ErrNo::EDOM
        } else if val == 34 {
            ErrNo::ERANGE
        } else if val == 35 {
            ErrNo::EDEADLK
        } else if val == 36 {
            ErrNo::ENAMETOOLONG
        } else if val == 37 {
            ErrNo::ENOLCK
        } else if val == 38 {
            ErrNo::ENOSYS
        } else if val == 39 {
            ErrNo::ENOTEMPTY
        } else if val == 40 {
            ErrNo::ELOOP
        } else if val == 42 {
            ErrNo::ENOMSG
        } else if val == 43 {
            ErrNo::EIDRM
        } else if val == 44 {
            ErrNo::ECHRNG
        } else if val == 45 {
            ErrNo::EL2NSYNC
        } else if val == 46 {
            ErrNo::EL3HLT
        } else if val == 47 {
            ErrNo::EL3RST
        } else if val == 48 {
            ErrNo::ELNRNG
        } else if val == 49 {
            ErrNo::EUNATCH
        } else if val == 50 {
            ErrNo::ENOCSI
        } else if val == 51 {
            ErrNo::EL2HLT
        } else if val == 52 {
            ErrNo::EBADE
        } else if val == 53 {
            ErrNo::EBADR
        } else if val == 54 {
            ErrNo::EXFULL
        } else if val == 55 {
            ErrNo::ENOANO
        } else if val == 56 {
            ErrNo::EBADRQC
        } else if val == 57 {
            ErrNo::EBADSLT
        } else if val == 59 {
            ErrNo::EBFONT
        } else if val == 60 {
            ErrNo::ENOSTR
        } else if val == 61 {
            ErrNo::ENODATA
        } else if val == 62 {
            ErrNo::ETIME
        } else if val == 63 {
            ErrNo::ENOSR
        } else if val == 64 {
            ErrNo::ENONET
        } else if val == 65 {
            ErrNo::ENOPKG
        } else if val == 66 {
            ErrNo::EREMOTE
        } else if val == 67 {
            ErrNo::ENOLINK
        } else if val == 68 {
            ErrNo::EADV
        } else if val == 69 {
            ErrNo::ESRMNT
        } else if val == 70 {
            ErrNo::ECOMM
        } else if val == 71 {
            ErrNo::EPROTO
        } else if val == 72 {
            ErrNo::EMULTIHOP
        } else if val == 73 {
            ErrNo::EDOTDOT
        } else if val == 74 {
            ErrNo::EBADMSG
        } else if val == 75 {
            ErrNo::EOVERFLOW
        } else if val == 76 {
            ErrNo::ENOTUNIQ
        } else if val == 77 {
            ErrNo::EBADFD
        } else if val == 78 {
            ErrNo::EREMCHG
        } else if val == 79 {
            ErrNo::ELIBACC
        } else if val == 80 {
            ErrNo::ELIBBAD
        } else if val == 81 {
            ErrNo::ELIBSCN
        } else if val == 82 {
            ErrNo::ELIBMAX
        } else if val == 83 {
            ErrNo::ELIBEXEC
        } else if val == 84 {
            ErrNo::EILSEQ
        } else if val == 85 {
            ErrNo::ERESTART
        } else if val == 86 {
            ErrNo::ESTRPIPE
        } else if val == 87 {
            ErrNo::EUSERS
        } else if val == 88 {
            ErrNo::ENOTSOCK
        } else if val == 89 {
            ErrNo::EDESTADDRREQ
        } else if val == 90 {
            ErrNo::EMSGSIZE
        } else if val == 91 {
            ErrNo::EPROTOTYPE
        } else if val == 92 {
            ErrNo::ENOPROTOOPT
        } else if val == 93 {
            ErrNo::EPROTONOSUPPORT
        } else if val == 94 {
            ErrNo::ESOCKTNOSUPPORT
        } else if val == 95 {
            ErrNo::EOPNOTSUPP
        } else if val == 96 {
            ErrNo::EPFNOSUPPORT
        } else if val == 97 {
            ErrNo::EAFNOSUPPORT
        } else if val == 98 {
            ErrNo::EADDRINUSE
        } else if val == 99 {
            ErrNo::EADDRNOTAVAIL
        } else if val == 100 {
            ErrNo::ENETDOWN
        } else if val == 101 {
            ErrNo::ENETUNREACH
        } else if val == 102 {
            ErrNo::ENETRESET
        } else if val == 103 {
            ErrNo::ECONNABORTED
        } else if val == 104 {
            ErrNo::ECONNRESET
        } else if val == 105 {
            ErrNo::ENOBUFS
        } else if val == 106 {
            ErrNo::EISCONN
        } else if val == 107 {
            ErrNo::ENOTCONN
        } else if val == 108 {
            ErrNo::ESHUTDOWN
        } else if val == 109 {
            ErrNo::ETOOMANYREFS
        } else if val == 110 {
            ErrNo::ETIMEDOUT
        } else if val == 111 {
            ErrNo::ECONNREFUSED
        } else if val == 112 {
            ErrNo::EHOSTDOWN
        } else if val == 113 {
            ErrNo::EHOSTUNREACH
        } else if val == 114 {
            ErrNo::EALREADY
        } else if val == 115 {
            ErrNo::EINPROGRESS
        } else if val == 116 {
            ErrNo::ESTALE
        } else if val == 117 {
            ErrNo::EUCLEAN
        } else if val == 118 {
            ErrNo::ENOTNAM
        } else if val == 119 {
            ErrNo::ENAVAIL
        } else if val == 120 {
            ErrNo::EISNAM
        } else if val == 121 {
            ErrNo::EREMOTEIO
        } else if val == 122 {
            ErrNo::EDQUOT
        } else if val == 123 {
            ErrNo::ENOMEDIUM
        } else if val == 124 {
            ErrNo::EMEDIUMTYPE
        } else if val == 125 {
            ErrNo::ECANCELED
        } else if val == 126 {
            ErrNo::ENOKEY
        } else if val == 127 {
            ErrNo::EKEYEXPIRED
        } else if val == 128 {
            ErrNo::EKEYREVOKED
        } else if val == 129 {
            ErrNo::EKEYREJECTED
        } else if val == 130 {
            ErrNo::EOWNERDEAD
        } else if val == 131 {
            ErrNo::ENOTRECOVERABLE
        } else if val == 132 {
            ErrNo::ERFKILL
        } else if val == 133 {
            ErrNo::EHWPOISON
        } else {
            ErrNo::UnknownErrNo
        }
    }
}

/// Every error is recovered from its number.
pub proof fn lemma_errno_round_trip(e: ErrNo)
    ensures
        ErrNo::spec_from_code(e.spec_code()) == e,
{
}

} // verus!
