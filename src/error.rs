use vstd::prelude::*;

verus! {

/// Every way a request can fail.
#[derive(Debug, PartialEq, Eq)]
pub enum BibErrorResponse {
    NotImplemented,
    NotAuthorized,
    LoginFailed,
    DbConnectionError(String),
    InvalidArgument(String),
    DataNotFound(String),
    UserNotFound(u32),
    BookNotFound(u32),
    DataDuplicated(u32),
    OverBorrowingLimit,
    BookNotReturned,
    BookNotBorrowed,
    SystemError(String),
    ExceedLimit(u32),
    NotPossibleToDelete,
    ExceedLimitInParallel(u32),
    NotAllowedToBorrow,
    BarcodeDigitsOutOfRange,
}

/// The body of a failure reply.
#[derive(Debug)]
pub struct BibResponseBody {
    pub success: bool,
    pub errcode: u16,
    pub message: String,
    pub reason: String,
}

/// Decimal digits of `n`, most significant first.
pub open spec fn decimal(n: nat) -> Seq<char>
    decreases n,
{
    if n < 10 {
        seq![digit_char(n)]
    } else {
        decimal(n / 10).push(digit_char(n % 10))
    }
}

pub open spec fn digit_char(d: nat) -> char {
    if d == 0 {
        '0'
    } else if d == 1 {
        '1'
    } else if d == 2 {
        '2'
    } else if d == 3 {
        '3'
    } else if d == 4 {
        '4'
    } else if d == 5 {
        '5'
    } else if d == 6 {
        '6'
    } else if d == 7 {
        '7'
    } else if d == 8 {
        '8'
    } else {
        '9'
    }
}

fn digit_str(d: u32) -> (r: &'static str)
    requires
        d < 10,
    ensures
        r@ == seq![digit_char(d as nat)],
{
    proof {
        reveal_strlit("0");
        reveal_strlit("1");
        reveal_strlit("2");
        reveal_strlit("3");
        reveal_strlit("4");
        reveal_strlit("5");
        reveal_strlit("6");
        reveal_strlit("7");
        reveal_strlit("8");
        reveal_strlit("9");
    }
    if d == 0 {
        "0"
    } else if d == 1 {
        "1"
    } else if d == 2 {
        "2"
    } else if d == 3 {
        "3"
    } else if d == 4 {
        "4"
    } else if d == 5 {
        "5"
    } else if d == 6 {
        "6"
    } else if d == 7 {
        "7"
    } else if d == 8 {
        "8"
    } else {
        "9"
    }
}

/// Appends the decimal text of `n` to `out`.
pub fn push_decimal(out: &mut String, n: u32)
    ensures
        final(out)@ == old(out)@ + decimal(n as nat),
    decreases n,
{
    if n >= 10 {
        push_decimal(out, n / 10);
    }
    out.append(digit_str(n % 10));
    proof {
        if n >= 10 {
            assert(decimal(n as nat) == decimal((n / 10) as nat).push(digit_char((n % 10) as nat)));
        }
    }
    assert(out@ =~= old(out)@ + decimal(n as nat));
}

/// Error code, message and reason of each failure.
pub open spec fn body_of(e: BibErrorResponse) -> (u16, Seq<char>, Seq<char>) {
    match e {
        BibErrorResponse::NotImplemented => (100, "この機能は対応していません"@, seq![]),
        BibErrorResponse::NotAuthorized => (101, "このアクセスは認証されていません"@, seq![]),
        BibErrorResponse::LoginFailed => (102, "ログインに失敗しました"@, seq![]),
        BibErrorResponse::DbConnectionError(r) => (103, "データベースに接続できません"@, r@),
        BibErrorResponse::InvalidArgument(r) => (104, "指定されてパラメータが正しくありません"@, r@),
        BibErrorResponse::DataNotFound(r) => (105, "データが見つかりません"@, r@),
        BibErrorResponse::UserNotFound(id) => (
            106,
            "ID("@ + decimal(id as nat) + ")が見つかりません"@,
            seq![],
        ),
        BibErrorResponse::BookNotFound(id) => (
            107,
            "該当図書が見つかりません(ID = "@ + decimal(id as nat) + ")"@,
            seq![],
        ),
        BibErrorResponse::DataDuplicated(id) => (
            108,
            "該当するデータが複数存在しています("@ + decimal(id as nat) + ")"@,
            seq![],
        ),
        BibErrorResponse::OverBorrowingLimit => (109, "貸出できる上限を超えています"@, seq![]),
        BibErrorResponse::BookNotReturned => (110, "この本は返却されていません"@, seq![]),
        BibErrorResponse::BookNotBorrowed => (111, "この本は貸出されていません"@, seq![]),
        BibErrorResponse::SystemError(r) => (112, "システムエラーが発生しました"@, r@),
        BibErrorResponse::ExceedLimit(n) => (
            113,
            "追加できる上限を超えています("@ + decimal(n as nat) + ")"@,
            seq![],
        ),
        BibErrorResponse::NotPossibleToDelete => (
            114,
            "未返却処理があるため、削除できません"@,
            seq![],
        ),
        BibErrorResponse::ExceedLimitInParallel(n) => (
            115,
            "一度に追加できる上限を超えています("@ + decimal(n as nat) + ")"@,
            seq![],
        ),
        BibErrorResponse::NotAllowedToBorrow => (116, "この本は貸出禁止です"@, seq![]),
        BibErrorResponse::BarcodeDigitsOutOfRange => (
            117,
            "バーコードの桁数が範囲外です"@,
            seq![],
        ),
    }
}

/// `before` + the decimal text of `n` + `after`.
fn framed(before: &str, n: u32, after: &str) -> (r: String)
    ensures
        r@ == before@ + decimal(n as nat) + after@,
{
    let mut s = before.to_owned();
    push_decimal(&mut s, n);
    s.append(after);
    s
}

impl BibErrorResponse {
    /// The reply body that reports this failure.
    pub fn response_body(&self) -> (r: BibResponseBody)
        ensures
            !r.success,
            (r.errcode, r.message@, r.reason@) == body_of(*self),
    {
        let (errcode, message, reason): (u16, String, String) = match self {
            BibErrorResponse::NotImplemented => (
                100,
                "この機能は対応していません".to_owned(),
                String::new(),
            ),
            BibErrorResponse::NotAuthorized => (
                101,
                "このアクセスは認証されていません".to_owned(),
                String::new(),
            ),
            BibErrorResponse::LoginFailed => (102, "ログインに失敗しました".to_owned(), String::new()),
            BibErrorResponse::DbConnectionError(r) => (
                103,
                "データベースに接続できません".to_owned(),
                r.clone(),
            ),
            BibErrorResponse::InvalidArgument(r) => (
                104,
                "指定されてパラメータが正しくありません".to_owned(),
                r.clone(),
            ),
            BibErrorResponse::DataNotFound(r) => (105, "データが見つかりません".to_owned(), r.clone()),
            BibErrorResponse::UserNotFound(id) => (
                106,
                framed("ID(", *id, ")が見つかりません"),
                String::new(),
            ),
            BibErrorResponse::BookNotFound(id) => (
                107,
                framed("該当図書が見つかりません(ID = ", *id, ")"),
                String::new(),
            ),
            BibErrorResponse::DataDuplicated(id) => (
                108,
                framed("該当するデータが複数存在しています(", *id, ")"),
                String::new(),
            ),
            BibErrorResponse::OverBorrowingLimit => (
                109,
                "貸出できる上限を超えています".to_owned(),
                String::new(),
            ),
            BibErrorResponse::BookNotReturned => (
                110,
                "この本は返却されていません".to_owned(),
                String::new(),
            ),
            BibErrorResponse::BookNotBorrowed => (
                111,
                "この本は貸出されていません".to_owned(),
                String::new(),
            ),
            BibErrorResponse::SystemError(r) => (
                112,
                "システムエラーが発生しました".to_owned(),
                r.clone(),
            ),
            BibErrorResponse::ExceedLimit(n) => (
                113,
                framed("追加できる上限を超えています(", *n, ")"),
                String::new(),
            ),
            BibErrorResponse::NotPossibleToDelete => (
                114,
                "未返却処理があるため、削除できません".to_owned(),
                String::new(),
            ),
            BibErrorResponse::ExceedLimitInParallel(n) => (
                115,
                framed("一度に追加できる上限を超えています(", *n, ")"),
                String::new(),
            ),
            BibErrorResponse::NotAllowedToBorrow => (
                116,
                "この本は貸出禁止です".to_owned(),
                String::new(),
            ),
            BibErrorResponse::BarcodeDigitsOutOfRange => (
                117,
                "バーコードの桁数が範囲外です".to_owned(),
                String::new(),
            ),
        };
        BibResponseBody { success: false, errcode, message, reason }
    }
}

} // verus!
