use rand::seq::SliceRandom;
use vstd::prelude::*;

verus! {

/// The `i`-th symbol of the identifier alphabet: digits, then upper case,
/// then lower case ASCII letters.
pub open spec fn symbol(i: int) -> char {
    if i < 10 {
        (48 + i) as char
    } else if i < 36 {
        (65 + i - 10) as char
    } else {
        (97 + i - 36) as char
    }
}

/// The identifier alphabet, in order.
pub open spec fn alphabet() -> Seq<char> {
    Seq::new(62, |i: int| symbol(i))
}

/// An ASCII digit or ASCII letter.
pub open spec fn is_alphanumeric(c: char) -> bool {
    ('0' <= c <= '9') || ('A' <= c <= 'Z') || ('a' <= c <= 'z')
}

/// A well-formed identifier of length `len`.
pub open spec fn is_valid_id(s: Seq<char>, len: nat) -> bool {
    &&& s.len() == len
    &&& forall|i: int| 0 <= i < s.len() ==> is_alphanumeric(#[trigger] s[i])
}

/// The `i`-th symbol of the alphabet, computed from its ASCII code.
fn symbol_at(i: u8) -> (c: char)
    requires
        i < 62,
    ensures
        c == symbol(i as int),
        is_alphanumeric(c),
{
    if i < 10 {
        (48u8 + i) as char
    } else if i < 36 {
        (55u8 + i) as char
    } else {
        (61u8 + i) as char
    }
}

/// Relies on rand's `SliceRandom::choose` (drawing from the thread-local
/// generator): some element of the slice, and `None` only for an empty slice.
#[verifier::external_body]
fn choose_symbol(symbols: &[char]) -> (r: Option<char>)
    ensures
        match r {
            Some(c) => symbols@.contains(c),
            None => symbols@.len() == 0,
        },
{
    symbols.choose(&mut rand::thread_rng()).copied()
}

/// Relies on `String::push`: appends one character.
#[verifier::external_body]
fn push_char(s: &mut String, c: char)
    ensures
        final(s)@ == old(s)@.push(c),
{
    s.push(c)
}

/// The identifier alphabet as a vector.
fn alphabet_symbols() -> (r: Vec<char>)
    ensures
        r@ == alphabet(),
{
    let mut r: Vec<char> = Vec::new();
    let mut i: u8 = 0;
    while i < 62
        invariant
            i <= 62,
            r@ == alphabet().take(i as int),
        decreases 62 - i,
    {
        let c = symbol_at(i);
        r.push(c);
        i = i + 1;
        assert(r@ =~= alphabet().take(i as int));
    }
    assert(r@ =~= alphabet());
    r
}

/// Draws one symbol of the alphabet at random.
fn draw_symbol(symbols: &Vec<char>) -> (c: char)
    requires
        symbols@ == alphabet(),
    ensures
        is_alphanumeric(c),
{
    match choose_symbol(symbols.as_slice()) {
        Some(c) => c,
        None => symbols[0],
    }
}

/// Where the content object named `name` lives under the directory `root`:
/// the two joined by one `/` (none is added after an empty root or a root
/// that already ends in `/`).
pub open spec fn path_join(root: Seq<char>, name: Seq<char>) -> Seq<char> {
    if root.len() == 0 || root.last() == '/' {
        root + name
    } else {
        root + seq!['/'] + name
    }
}

/// The identifier of a stored blob.
#[derive(Debug)]
pub struct FileId {
    id: String,
}

/// The identifier under the name used where only images are stored.
pub type ImageId = FileId;

impl View for FileId {
    type V = Seq<char>;

    closed spec fn view(&self) -> Seq<char> {
        self.id@
    }
}

impl FileId {
    /// Draws a new identifier of `size` symbols, each picked uniformly from
    /// the 62 ASCII digits and letters.
    pub fn new(size: usize) -> (r: FileId)
        ensures
            is_valid_id(r@, size as nat),
    {
        let symbols = alphabet_symbols();
        let mut id = String::new();
        let mut i: usize = 0;
        while i < size
            invariant
                i <= size,
                symbols@ == alphabet(),
                is_valid_id(id@, i as nat),
            decreases size - i,
        {
            let c = draw_symbol(&symbols);
            push_char(&mut id, c);
            i = i + 1;
        }
        FileId { id }
    }

    /// Wraps an existing identifier.
    pub fn from(id: &str) -> (r: FileId)
        ensures
            r@ == id@,
    {
        FileId { id: id.to_owned() }
    }

    /// The path of the content object of this identifier under `root`.
    pub fn file_path(&self, root: &str) -> (r: String)
        ensures
            r@ == path_join(root@, self@),
    {
        let n = root.unicode_len();
        let mut path = root.to_owned();
        if n > 0 && root.get_char(n - 1) != '/' {
            push_char(&mut path, '/');
        }
        path.append(self.id.as_str());
        assert(path@ =~= path_join(root@, self@));
        path
    }

    /// The identifier as an owned string.
    pub(crate) fn text(&self) -> (r: &String)
        ensures
            r@ == self@,
    {
        &self.id
    }

    /// The identifier as text.
    pub fn get_id(&self) -> (r: &str)
        ensures
            r@ == self@,
    {
        self.id.as_str()
    }

    /// Reads an identifier from a request parameter: accepted exactly when
    /// every character is an ASCII digit or letter, else refused with a fixed
    /// message.
    pub fn from_param(param: &str) -> (r: Result<FileId, &'static str>)
        ensures
            r is Ok <==> forall|i: int| 0 <= i < param@.len() ==> is_alphanumeric(#[trigger] param@[i]),
            r matches Ok(f) ==> f@ == param@,
            r matches Err(m) ==> m@ == "token read from parameter is invalid"@,
    {
        let n = param.unicode_len();
        let mut i: usize = 0;
        while i < n
            invariant
                i <= n,
                n == param@.len(),
                forall|j: int| 0 <= j < i ==> is_alphanumeric(#[trigger] param@[j]),
            decreases n - i,
        {
            let c = param.get_char(i);
            if !(('0' <= c && c <= '9') || ('A' <= c && c <= 'Z') || ('a' <= c && c <= 'z')) {
                return Err("token read from parameter is invalid");
            }
            i = i + 1;
        }
        Ok(FileId::from(param))
    }
}

} // verus!
