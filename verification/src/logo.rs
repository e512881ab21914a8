//! Logos that are kept on Drive: which file a thumbnail stands for, and the data URL that
//! shows it.

use base64::Engine;
use vstd::prelude::*;

use crate::text::{join, strip_prefix};

verus! {

/// The Drive file that a thumbnail stands for. `drive-file:` is the form in use; the other two
/// are older.
pub open spec fn drive_file_id(thumbnail: Seq<char>) -> Option<Seq<char>> {
    if "drive-file:"@.is_prefix_of(thumbnail) {
        crate::text::after_prefix(thumbnail, "drive-file:"@)
    } else if "gdrive-img://localhost/"@.is_prefix_of(thumbnail) {
        crate::text::after_prefix(thumbnail, "gdrive-img://localhost/"@)
    } else {
        crate::text::after_prefix(thumbnail, "gdrive-img://"@)
    }
}

/// Finds the Drive file that a thumbnail stands for.
pub fn thumbnail_file_id(thumbnail: &str) -> (id: Option<String>)
    ensures
        id.deep_view() == drive_file_id(thumbnail@),
{
    if let Some(id) = strip_prefix(thumbnail, "drive-file:") {
        return Some(id);
    }
    if let Some(id) = strip_prefix(thumbnail, "gdrive-img://localhost/") {
        return Some(id);
    }
    strip_prefix(thumbnail, "gdrive-img://")
}

proof fn lemma_prefix(prefix: Seq<char>, rest: Seq<char>)
    ensures
        prefix.is_prefix_of(prefix + rest),
        (prefix + rest).skip(prefix.len() as int) == rest,
{
    assert((prefix + rest).take(prefix.len() as int) =~= prefix);
    assert((prefix + rest).skip(prefix.len() as int) =~= rest);
}

/// All three forms of a thumbnail stand for the file that they name. An identifier that begins
/// with `localhost/` cannot be written in the shortest of the older forms, where those
/// characters belong to the form.
pub proof fn law_thumbnail_forms(id: Seq<char>)
    ensures
        drive_file_id("drive-file:"@ + id) == Some(id),
        drive_file_id("gdrive-img://localhost/"@ + id) == Some(id),
        !"localhost/"@.is_prefix_of(id) ==> drive_file_id("gdrive-img://"@ + id) == Some(id),
{
    reveal_strlit("drive-file:");
    reveal_strlit("gdrive-img://localhost/");
    reveal_strlit("gdrive-img://");
    reveal_strlit("localhost/");
    let current = "drive-file:"@;
    let long = "gdrive-img://localhost/"@;
    let short = "gdrive-img://"@;
    let host = "localhost/"@;
    assert(long =~= short + host);
    lemma_prefix(current, id);
    lemma_prefix(long, id);
    lemma_prefix(short, id);
    assert(!current.is_prefix_of(long + id)) by {
        assert((long + id)[0] == 'g');
    }
    assert(!current.is_prefix_of(short + id)) by {
        assert((short + id)[0] == 'g');
    }
    if long.is_prefix_of(short + id) {
        assert(host =~= id.take(host.len() as int)) by {
            assert forall|i: int| 0 <= i < host.len() implies host[i] == #[trigger] id[i] by {
                assert(long[short.len() + i] == (short + id)[short.len() + i]);
            }
        }
    }
}

/// The character for a digit of the standard base64 alphabet.
pub open spec fn base64_digit(value: int) -> char {
    if value < 26 {
        ('A' as int + value) as char
    } else if value < 52 {
        ('a' as int + (value - 26)) as char
    } else if value < 62 {
        ('0' as int + (value - 52)) as char
    } else if value == 62 {
        '+'
    } else {
        '/'
    }
}

/// The length of the base64 text of so many bytes: four characters for each group of three
/// bytes, the last of which may be incomplete.
pub open spec fn base64_len(count: nat) -> nat {
    4 * ((count + 2) / 3)
}

/// The byte at a place, and zero past the end.
pub open spec fn byte_at(bytes: Seq<u8>, place: int) -> int {
    if 0 <= place < bytes.len() {
        bytes[place] as int
    } else {
        0
    }
}

/// The group of three bytes at a place, as one number of 24 bits.
pub open spec fn group_at(bytes: Seq<u8>, place: int) -> int {
    byte_at(bytes, 3 * place) * 65536 + byte_at(bytes, 3 * place + 1) * 256 + byte_at(
        bytes,
        3 * place + 2,
    )
}

/// The six bits of a group that its character `place` stands for.
pub open spec fn sextet(group: int, place: int) -> int {
    if place == 0 {
        group / 262144
    } else if place == 1 {
        group / 4096 % 64
    } else if place == 2 {
        group / 64 % 64
    } else {
        group % 64
    }
}

/// The base64 text of some bytes, with the standard alphabet and with padding (RFC 4648,
/// section 4).
pub open spec fn base64_text(bytes: Seq<u8>) -> Seq<char> {
    Seq::new(
        base64_len(bytes.len()),
        |i: int|
            if 3 * (i / 4) + i % 4 > bytes.len() {
                '='
            } else {
                base64_digit(sextet(group_at(bytes, i / 4), i % 4))
            },
    )
}

/// `Engine::encode` of the `base64` crate, with its `STANDARD` engine. Trusted: the text it
/// returns is the base64 text of the bytes, with the standard alphabet and with padding. It
/// allocates that text, and panics where its length is more than an allocation can hold.
#[verifier::external_body]
fn encode_standard(bytes: &[u8]) -> (text: String)
    requires
        base64_len(bytes@.len()) <= isize::MAX,
    ensures
        text@ == base64_text(bytes@),
{
    base64::engine::general_purpose::STANDARD.encode(bytes)
}

/// Whether the base64 text of so many bytes can be held.
pub fn base64_fits(count: usize) -> (fits: bool)
    ensures
        fits == (base64_len(count as nat) <= isize::MAX),
{
    let full = count / 3;
    let groups = if count % 3 == 0 {
        full
    } else {
        full + 1
    };
    assert(groups == (count + 2) / 3);
    groups <= isize::MAX as usize / 4
}

/// The data URL of an image.
pub open spec fn data_url(content_type: Seq<char>, bytes: Seq<u8>) -> Seq<char> {
    "data:"@ + content_type + ";base64,"@ + base64_text(bytes)
}

/// Writes the data URL of an image.
pub fn logo_data_url(content_type: &str, bytes: &[u8]) -> (url: String)
    requires
        base64_len(bytes@.len()) <= isize::MAX,
    ensures
        url@ == data_url(content_type@, bytes@),
{
    let head = join(join("data:", content_type).as_str(), ";base64,");
    join(head.as_str(), encode_standard(bytes).as_str())
}

/// A step of fetching a logo.
#[derive(Debug, PartialEq, Eq)]
pub enum LogoFetch {
    /// Download this file from Drive, and its content type with it.
    Download { file_id: String },
    /// Give this to the caller.
    Finished(Result<String, String>),
}

impl LogoFetch {
    /// The first step of fetching a logo. A thumbnail that does not stand for a file on Drive
    /// is refused, and nothing is downloaded.
    pub fn get_logo_data_url(thumbnail: &str) -> (step: Self)
        ensures
            match drive_file_id(thumbnail@) {
                Some(id) => step matches LogoFetch::Download { file_id } && file_id@ == id,
                None => step matches LogoFetch::Finished(Err(message)) && message@
                    == "Not a Drive thumbnail: "@ + thumbnail@,
            },
    {
        match thumbnail_file_id(thumbnail) {
            Some(file_id) => LogoFetch::Download { file_id },
            None => LogoFetch::Finished(Err(join("Not a Drive thumbnail: ", thumbnail))),
        }
    }

    /// The step after the download: the data URL of what was downloaded, or the error. A fetch
    /// that is over stays as it is.
    pub fn downloaded(self, file: Result<(Vec<u8>, String), String>) -> (step: Self)
        requires
            file matches Ok((bytes, _)) ==> base64_len(bytes@.len()) <= isize::MAX,
        ensures
            match (self, file) {
                (LogoFetch::Download { .. }, Ok((bytes, content_type))) => {
                    step matches LogoFetch::Finished(Ok(url)) && url@ == data_url(
                        content_type@,
                        bytes@,
                    )
                },
                (LogoFetch::Download { .. }, Err(message)) => {
                    step == LogoFetch::Finished(Err(message))
                },
                (LogoFetch::Finished(_), _) => step == self,
            },
    {
        match self {
            LogoFetch::Download { .. } => match file {
                Ok((bytes, content_type)) => LogoFetch::Finished(
                    Ok(logo_data_url(content_type.as_str(), bytes.as_slice())),
                ),
                Err(message) => LogoFetch::Finished(Err(message)),
            },
            LogoFetch::Finished(result) => LogoFetch::Finished(result),
        }
    }
}

proof fn lemma_digits_differ(a: int, b: int)
    requires
        0 <= a < 64,
        0 <= b < 64,
        base64_digit(a) == base64_digit(b),
    ensures
        a == b,
{
    assert(base64_digit(a) as int == base64_digit(b) as int);
}

proof fn lemma_sextet_range(bytes: Seq<u8>, place: int, r: int)
    requires
        0 <= r < 4,
    ensures
        0 <= sextet(group_at(bytes, place), r) < 64,
        base64_digit(sextet(group_at(bytes, place), r)) != '=',
{
}

proof fn lemma_sextets_make_group(x: int, y: int)
    requires
        0 <= x < 16777216,
        0 <= y < 16777216,
        forall|r: int| 0 <= r < 4 ==> #[trigger] sextet(x, r) == sextet(y, r),
    ensures
        x == y,
{
    assert(sextet(x, 0) == sextet(y, 0));
    assert(sextet(x, 1) == sextet(y, 1));
    assert(sextet(x, 2) == sextet(y, 2));
    assert(sextet(x, 3) == sextet(y, 3));
}

proof fn lemma_hidden_sextet_is_zero(bytes: Seq<u8>, k: int, r: int)
    requires
        0 <= k,
        0 <= r < 4,
        3 * k < bytes.len(),
        3 * k + r > bytes.len(),
    ensures
        sextet(group_at(bytes, k), r) == 0,
{
    let high = byte_at(bytes, 3 * k);
    let middle = byte_at(bytes, 3 * k + 1);
    assert(byte_at(bytes, 3 * k + 2) == 0);
    if r == 3 {
        assert((high * 65536 + middle * 256) % 64 == 0);
    } else {
        assert(middle == 0);
        assert((high * 65536) / 64 % 64 == 0);
    }
}

proof fn lemma_same_sextets(a: Seq<u8>, b: Seq<u8>, k: int, r: int)
    requires
        a.len() == b.len(),
        base64_text(a) == base64_text(b),
        0 <= k,
        0 <= r < 4,
        3 * k < a.len(),
    ensures
        sextet(group_at(a, k), r) == sextet(group_at(b, k), r),
{
    let j = 4 * k + r;
    assert(j / 4 == k && j % 4 == r);
    if 3 * k + r <= a.len() {
        lemma_sextet_range(a, k, r);
        lemma_sextet_range(b, k, r);
        assert(base64_text(a)[j] == base64_digit(sextet(group_at(a, k), r)));
        assert(base64_text(b)[j] == base64_digit(sextet(group_at(b, k), r)));
        lemma_digits_differ(sextet(group_at(a, k), r), sextet(group_at(b, k), r));
    } else {
        lemma_hidden_sextet_is_zero(a, k, r);
        lemma_hidden_sextet_is_zero(b, k, r);
    }
}

/// Two texts that are the same come from the same bytes: base64 loses nothing.
pub proof fn law_base64_loses_nothing(a: Seq<u8>, b: Seq<u8>)
    requires
        base64_text(a) == base64_text(b),
    ensures
        a == b,
{
    assert(base64_text(a).len() == base64_len(a.len()));
    assert(base64_text(b).len() == base64_len(b.len()));
    if a.len() < b.len() {
        lemma_shorter_is_padded(a, b);
    } else if b.len() < a.len() {
        lemma_shorter_is_padded(b, a);
    }
    assert forall|i: int| 0 <= i < a.len() implies a[i] == b[i] by {
        let k = i / 3;
        assert forall|r: int| 0 <= r < 4 implies #[trigger] sextet(group_at(a, k), r) == sextet(
            group_at(b, k),
            r,
        ) by {
            lemma_same_sextets(a, b, k, r);
        }
        lemma_sextets_make_group(group_at(a, k), group_at(b, k));
        assert(byte_at(a, i) == byte_at(b, i));
    }
    assert(a =~= b);
}

proof fn lemma_shorter_is_padded(a: Seq<u8>, b: Seq<u8>)
    requires
        a.len() < b.len(),
        base64_len(a.len()) == base64_len(b.len()),
    ensures
        base64_text(a) != base64_text(b),
{
    let k = (a.len() - 1) / 3;
    let r = a.len() - 3 * k + 1;
    let j = 4 * k + r;
    assert(j / 4 == k && j % 4 == r);
    lemma_sextet_range(b, k, r);
    assert(base64_text(a)[j] == '=');
    assert(base64_text(b)[j] != '=');
}

/// A data URL holds the image whole: for one content type, the same URL means the same bytes.
pub proof fn law_data_url_loses_nothing(content_type: Seq<char>, a: Seq<u8>, b: Seq<u8>)
    requires
        data_url(content_type, a) == data_url(content_type, b),
    ensures
        a == b,
{
    let head = "data:"@ + content_type + ";base64,"@;
    lemma_prefix(head, base64_text(a));
    lemma_prefix(head, base64_text(b));
    law_base64_loses_nothing(a, b);
}

/// A thumbnail stands for a file on Drive exactly where it begins in one of the forms.
pub proof fn law_other_thumbnails_are_refused(thumbnail: Seq<char>)
    ensures
        drive_file_id(thumbnail) is None <==> !"drive-file:"@.is_prefix_of(thumbnail)
            && !"gdrive-img://"@.is_prefix_of(thumbnail),
{
    reveal_strlit("gdrive-img://localhost/");
    reveal_strlit("gdrive-img://");
    let long = "gdrive-img://localhost/"@;
    let short = "gdrive-img://"@;
    assert(short =~= long.take(short.len() as int));
    if long.is_prefix_of(thumbnail) {
        assert(short =~= thumbnail.take(short.len() as int));
    }
}

/// A data URL gives the content type, and then the base64 text of the image.
pub proof fn law_data_url_parts(content_type: Seq<char>, bytes: Seq<u8>)
    ensures
        data_url(content_type, bytes) == "data:"@ + content_type + ";base64,"@ + base64_text(
            bytes,
        ),
{
}

/// The digits of base64 are the capital letters, the small letters, the figures, the plus sign
/// and the slash, in this order.
pub proof fn law_base64_alphabet(value: int)
    requires
        0 <= value < 64,
    ensures
        base64_digit(value)
            == "ABCDEFGHIJKLMNOPQRSTUVWXYZabcdefghijklmnopqrstuvwxyz0123456789+/"@[value],
{
    reveal_strlit("ABCDEFGHIJKLMNOPQRSTUVWXYZabcdefghijklmnopqrstuvwxyz0123456789+/");
    assert(value == 0 || value == 1 || value == 2 || value == 3 || value == 4 || value == 5 || value == 6 || value == 7 ||
        value == 8 || value == 9 || value == 10 || value == 11 || value == 12 || value == 13 || value == 14 || value == 15 ||
        value == 16 || value == 17 || value == 18 || value == 19 || value == 20 || value == 21 || value == 22 || value == 23 ||
        value == 24 || value == 25 || value == 26 || value == 27 || value == 28 || value == 29 || value == 30 || value == 31 ||
        value == 32 || value == 33 || value == 34 || value == 35 || value == 36 || value == 37 || value == 38 || value == 39 ||
        value == 40 || value == 41 || value == 42 || value == 43 || value == 44 || value == 45 || value == 46 || value == 47 ||
        value == 48 || value == 49 || value == 50 || value == 51 || value == 52 || value == 53 || value == 54 || value == 55 ||
        value == 56 || value == 57 || value == 58 || value == 59 || value == 60 || value == 61 || value == 62 || value == 63);
}

/// Base64 text has four characters for each three bytes, and four for what is left over.
pub proof fn law_base64_length(bytes: Seq<u8>, groups: nat)
    ensures
        base64_text(bytes).len() == base64_len(bytes.len()),
        base64_len(3 * groups) == 4 * groups,
        base64_len(3 * groups + 1) == 4 * groups + 4,
        base64_len(3 * groups + 2) == 4 * groups + 4,
{
}

proof fn lemma_sextets_of_group(group: int)
    requires
        0 <= group < 16777216,
    ensures
        0 <= sextet(group, 0) < 64,
        0 <= sextet(group, 1) < 64,
        0 <= sextet(group, 2) < 64,
        0 <= sextet(group, 3) < 64,
        sextet(group, 0) * 262144 + sextet(group, 1) * 4096 + sextet(group, 2) * 64 + sextet(
            group,
            3,
        ) == group,
{
    let upper = group / 64;
    let high = upper / 64;
    assert(group / 4096 == high);
    assert(group / 262144 == high / 64);
}

proof fn lemma_characters_of_group(bytes: Seq<u8>, k: int, r: int)
    requires
        0 <= k,
        0 <= r < 4,
        3 * k < bytes.len(),
    ensures
        4 * k + r < base64_text(bytes).len(),
        base64_text(bytes)[4 * k + r] == if 3 * k + r > bytes.len() {
            '='
        } else {
            base64_digit(sextet(group_at(bytes, k), r))
        },
{
    let j = 4 * k + r;
    assert(j / 4 == k && j % 4 == r);
}

/// Three bytes make one number of 24 bits, and the four characters for them are its digits in
/// base 64, the highest first.
pub proof fn law_base64_of_three_bytes(bytes: Seq<u8>, k: int) -> (values: (int, int, int, int))
    requires
        0 <= k,
        3 * k + 2 < bytes.len(),
    ensures
        0 <= values.0 < 64 && 0 <= values.1 < 64 && 0 <= values.2 < 64 && 0 <= values.3 < 64,
        values.0 * 262144 + values.1 * 4096 + values.2 * 64 + values.3 == bytes[3 * k] * 65536
            + bytes[3 * k + 1] * 256 + bytes[3 * k + 2],
        base64_text(bytes)[4 * k] == base64_digit(values.0),
        base64_text(bytes)[4 * k + 1] == base64_digit(values.1),
        base64_text(bytes)[4 * k + 2] == base64_digit(values.2),
        base64_text(bytes)[4 * k + 3] == base64_digit(values.3),
{
    let group = group_at(bytes, k);
    lemma_sextets_of_group(group);
    lemma_characters_of_group(bytes, k, 0);
    lemma_characters_of_group(bytes, k, 1);
    lemma_characters_of_group(bytes, k, 2);
    lemma_characters_of_group(bytes, k, 3);
    (sextet(group, 0), sextet(group, 1), sextet(group, 2), sextet(group, 3))
}

/// Two bytes that are left over make three characters, the last of them with two bits to spare,
/// and one equals sign.
pub proof fn law_base64_of_two_bytes_left(bytes: Seq<u8>, k: int) -> (values: (int, int, int))
    requires
        0 <= k,
        3 * k + 2 == bytes.len(),
    ensures
        0 <= values.0 < 64 && 0 <= values.1 < 64 && 0 <= values.2 < 64,
        values.0 * 4096 + values.1 * 64 + values.2 == (bytes[3 * k] * 256 + bytes[3 * k + 1]) * 4,
        base64_text(bytes)[4 * k] == base64_digit(values.0),
        base64_text(bytes)[4 * k + 1] == base64_digit(values.1),
        base64_text(bytes)[4 * k + 2] == base64_digit(values.2),
        base64_text(bytes)[4 * k + 3] == '=',
{
    let group = group_at(bytes, k);
    lemma_sextets_of_group(group);
    lemma_characters_of_group(bytes, k, 0);
    lemma_characters_of_group(bytes, k, 1);
    lemma_characters_of_group(bytes, k, 2);
    lemma_characters_of_group(bytes, k, 3);
    lemma_hidden_sextet_is_zero(bytes, k, 3);
    (sextet(group, 0), sextet(group, 1), sextet(group, 2))
}

/// One byte that is left over makes two characters, the second of them with four bits to spare,
/// and two equals signs.
pub proof fn law_base64_of_one_byte_left(bytes: Seq<u8>, k: int) -> (values: (int, int))
    requires
        0 <= k,
        3 * k + 1 == bytes.len(),
    ensures
        0 <= values.0 < 64 && 0 <= values.1 < 64,
        values.0 * 64 + values.1 == bytes[3 * k] * 16,
        base64_text(bytes)[4 * k] == base64_digit(values.0),
        base64_text(bytes)[4 * k + 1] == base64_digit(values.1),
        base64_text(bytes)[4 * k + 2] == '=',
        base64_text(bytes)[4 * k + 3] == '=',
{
    let group = group_at(bytes, k);
    lemma_sextets_of_group(group);
    lemma_characters_of_group(bytes, k, 0);
    lemma_characters_of_group(bytes, k, 1);
    lemma_characters_of_group(bytes, k, 2);
    lemma_characters_of_group(bytes, k, 3);
    lemma_hidden_sextet_is_zero(bytes, k, 2);
    lemma_hidden_sextet_is_zero(bytes, k, 3);
    (sextet(group, 0), sextet(group, 1))
}

} // verus!
