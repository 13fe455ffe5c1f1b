//! Input validation shared by the tools: paths, commands, timeouts, sizes,
//! patterns, read ranges and file kinds.
use vstd::prelude::*;
use crate::model::FileType;
use crate::text::{decimal, decimal_chars, extend_chars, extend_str, all_whitespace, char_alphanumeric, chars_of, contains, contains_char, contains_chars, first_word, first_word_chars, has_char, is_alphanumeric, is_blank, starts_with, starts_with_chars, string_of, str_byte_len, utf8_len};

verus! {

/// Maximum content size for write operations (100MB).
pub const MAX_CONTENT_SIZE: usize = 104857600;

/// Maximum number of grep matches.
pub const MAX_GREP_MATCHES: usize = 10000;

/// Maximum timeout for commands, in seconds (10 minutes).
pub const MAX_TIMEOUT_SECS: u64 = 600;

/// Minimum timeout for commands, in seconds.
pub const MIN_TIMEOUT_SECS: u64 = 1;

/// Maximum offset for read operations.
pub const MAX_OFFSET: usize = 1000000;

/// Maximum limit for read operations.
pub const MAX_LIMIT: usize = 100000;

/// Maximum symlink depth, to stop circular links.
pub const MAX_SYMLINK_DEPTH: usize = 8;

/// Why an input was rejected.
#[derive(Debug, Clone, PartialEq, Eq)]
pub enum ValidationError {
    /// The path is empty or only whitespace.
    EmptyPath,
    /// The path contains `..`.
    PathTraversal,
    /// The path contains a NUL character.
    NullByte,
    /// The command is empty or only whitespace.
    EmptyCommand,
    /// The command contains the given chaining or redirection pattern.
    DangerousPattern(String),
    /// The command name (first word) holds a character outside letters,
    /// digits, `_`, `-`, `.` and `/`.
    InvalidCommandName(String),
    /// The argument contains the given shell metacharacter.
    DangerousArgument(char, String),
    /// The timeout is below the minimum.
    TimeoutTooShort,
    /// The timeout is above the maximum.
    TimeoutTooLong,
    /// The content is empty.
    EmptyContent,
    /// The content is larger than the maximum (its byte size is held).
    ContentTooLarge(usize),
    /// The pattern is empty or only whitespace.
    EmptyPattern,
    /// The pattern contains `(*)`, `(+)` or `{100}`.
    CatastrophicPattern,
    /// The read offset is above the maximum.
    OffsetTooLarge(usize),
    /// The read limit is zero.
    ZeroLimit,
    /// The read limit is above the maximum.
    LimitTooLarge(usize),
    /// The named field is empty or only whitespace.
    EmptyField(String),
    /// A special file (device, socket, ...) cannot be read.
    SpecialFileRead,
    /// A directory cannot be written.
    WriteToDirectory,
    /// A special file cannot be written.
    SpecialFileWrite,
    /// The symlink depth reached the maximum.
    SymlinkTooDeep,
    /// The path holds `../` or `..\`.
    SymlinkParentReference,
    /// An absolute path through `/tmp/`.
    SymlinkInTmp,
}

/// The kinds of file operation that are validated.
#[derive(Debug, Clone, Copy, PartialEq, Eq, Structural)]
pub enum FileOperationType {
    Read,
    Write,
    Edit,
}

pub open spec fn seq_dot_dot() -> Seq<char> {
    seq!['.', '.']
}

/// `validate_path` accepts exactly these paths.
pub open spec fn path_is_valid(p: Seq<char>) -> bool {
    !all_whitespace(p) && !contains(p, seq_dot_dot()) && !has_char(p, '\0')
}

/// Validate a file path: rejects empty paths, `..` and NUL bytes, in that order.
pub fn validate_path(path: &str) -> (r: Result<(), ValidationError>)
    ensures
        all_whitespace(path@) ==> r == Err::<(), ValidationError>(ValidationError::EmptyPath),
        !all_whitespace(path@) && contains(path@, seq_dot_dot()) ==> r == Err::<(), ValidationError>(
            ValidationError::PathTraversal,
        ),
        !all_whitespace(path@) && !contains(path@, seq_dot_dot()) && has_char(path@, '\0') ==> r
            == Err::<(), ValidationError>(ValidationError::NullByte),
        r is Ok <==> path_is_valid(path@),
{
    let p = chars_of(path);
    if is_blank(p.as_slice()) {
        return Err(ValidationError::EmptyPath);
    }
    if contains_chars(p.as_slice(), &['.', '.']) {
        return Err(ValidationError::PathTraversal);
    }
    if contains_char(p.as_slice(), '\0') {
        return Err(ValidationError::NullByte);
    }
    Ok(())
}

/// The patterns `validate_command` refuses, in the order they are checked.
pub open spec fn dangerous_patterns() -> Seq<Seq<char>> {
    seq![
        seq!['&', '&'],
        seq!['|', '|'],
        seq!['|'],
        seq![';'],
        seq!['&'],
        seq!['$', '('],
        seq!['`'],
        seq!['>'],
        seq!['<'],
    ]
}

/// Index of the first pattern of `pats` at or after `k` that occurs in `s`.
pub open spec fn first_contained(s: Seq<char>, pats: Seq<Seq<char>>, k: int) -> Option<int>
    decreases pats.len() - k,
{
    if k < 0 || k >= pats.len() {
        None
    } else if contains(s, pats[k]) {
        Some(k)
    } else {
        first_contained(s, pats, k + 1)
    }
}

/// Characters allowed in a command name.
pub open spec fn command_name_char(c: char) -> bool {
    char_alphanumeric(c) || c == '_' || c == '-' || c == '.' || c == '/'
}

/// Every character of the command name is allowed.
pub open spec fn command_name_ok(name: Seq<char>) -> bool {
    forall|i: int| 0 <= i < name.len() ==> command_name_char(#[trigger] name[i])
}

/// `validate_command` accepts exactly these commands.
pub open spec fn command_is_valid(c: Seq<char>) -> bool {
    !all_whitespace(c) && first_contained(c, dangerous_patterns(), 0) is None && command_name_ok(
        first_word(c),
    )
}

fn pattern_chars(k: usize) -> (r: Vec<char>)
    requires
        k < 9,
    ensures
        r@ == dangerous_patterns()[k as int],
{
    let mut v: Vec<char> = Vec::new();
    if k == 0 {
        v.push('&');
        v.push('&');
    } else if k == 1 {
        v.push('|');
        v.push('|');
    } else if k == 2 {
        v.push('|');
    } else if k == 3 {
        v.push(';');
    } else if k == 4 {
        v.push('&');
    } else if k == 5 {
        v.push('$');
        v.push('(');
    } else if k == 6 {
        v.push('`');
    } else if k == 7 {
        v.push('>');
    } else {
        v.push('<');
    }
    proof {
        assert(v@ =~= dangerous_patterns()[k as int]);
    }
    v
}

/// Validate a command string: it must not be blank, must hold none of the
/// chaining, substitution or redirection patterns (the first one found is
/// reported), and its name may only hold letters, digits, `_`, `-`, `.`, `/`.
pub fn validate_command(command: &str) -> (r: Result<(), ValidationError>)
    ensures
        all_whitespace(command@) ==> r == Err::<(), ValidationError>(ValidationError::EmptyCommand),
        !all_whitespace(command@) ==> match first_contained(command@, dangerous_patterns(), 0) {
            Some(k) => r matches Err(ValidationError::DangerousPattern(p)) && p@
                == dangerous_patterns()[k],
            None => if command_name_ok(first_word(command@)) {
                r is Ok
            } else {
                r matches Err(ValidationError::InvalidCommandName(n)) && n@ == first_word(command@)
            },
        },
        r is Ok <==> command_is_valid(command@),
{
    let c = chars_of(command);
    if is_blank(c.as_slice()) {
        return Err(ValidationError::EmptyCommand);
    }
    let mut k: usize = 0;
    while k < 9
        invariant
            k <= 9,
            c@ == command@,
            !all_whitespace(c@),
            first_contained(c@, dangerous_patterns(), 0) == first_contained(
                c@,
                dangerous_patterns(),
                k as int,
            ),
        decreases 9 - k,
    {
        let pat = pattern_chars(k);
        if contains_chars(c.as_slice(), pat.as_slice()) {
            return Err(ValidationError::DangerousPattern(string_of(pat.as_slice())));
        }
        k += 1;
    }
    let name = first_word_chars(c.as_slice());
    let mut i: usize = 0;
    while i < name.len()
        invariant
            i <= name.len(),
            name@ == first_word(c@),
            c@ == command@,
            !all_whitespace(c@),
            first_contained(c@, dangerous_patterns(), 0) is None,
            forall|m: int| 0 <= m < i ==> command_name_char(#[trigger] name@[m]),
        decreases name.len() - i,
    {
        let ch = name[i];
        if !(is_alphanumeric(ch) || ch == '_' || ch == '-' || ch == '.' || ch == '/') {
            assert(!command_name_char(name@[i as int]));
            return Err(ValidationError::InvalidCommandName(string_of(name.as_slice())));
        }
        i += 1;
    }
    Ok(())
}

/// Shell metacharacters refused in command arguments, in the order checked.
pub open spec fn dangerous_arg_chars() -> Seq<char> {
    seq!['$', '`', ';', '&', '|', '>', '<', '\n', '\r']
}

/// Index of the first character of `dangerous_arg_chars` at or after `k` that occurs in `s`.
pub open spec fn first_dangerous_char(s: Seq<char>, k: int) -> Option<int>
    decreases dangerous_arg_chars().len() - k,
{
    if k < 0 || k >= dangerous_arg_chars().len() {
        None
    } else if has_char(s, dangerous_arg_chars()[k]) {
        Some(k)
    } else {
        first_dangerous_char(s, k + 1)
    }
}

/// Index of the first argument at or after `i` holding a dangerous character.
pub open spec fn first_bad_arg(args: Seq<Seq<char>>, i: int) -> Option<int>
    decreases args.len() - i,
{
    if i < 0 || i >= args.len() {
        None
    } else if first_dangerous_char(args[i], 0) is Some {
        Some(i)
    } else {
        first_bad_arg(args, i + 1)
    }
}

/// The views of a list of strings.
pub open spec fn string_views(v: Seq<String>) -> Seq<Seq<char>> {
    v.map_values(|s: String| s@)
}

fn dangerous_arg_char(k: usize) -> (c: char)
    requires
        k < 9,
    ensures
        c == dangerous_arg_chars()[k as int],
{
    let table: [char; 9] = ['$', '`', ';', '&', '|', '>', '<', '\n', '\r'];
    proof {
        assert(table@ =~= dangerous_arg_chars());
    }
    table[k]
}

/// Validate command arguments: the first argument holding one of
/// `$`, `` ` ``, `;`, `&`, `|`, `>`, `<`, newline or carriage return is
/// refused, naming the first such character in that order.
pub fn validate_command_args(args: &[String]) -> (r: Result<(), ValidationError>)
    ensures
        match first_bad_arg(string_views(args@), 0) {
            None => r is Ok,
            Some(i) => {
                let k = first_dangerous_char(args@[i]@, 0)->0;
                r matches Err(ValidationError::DangerousArgument(c, a)) && c
                    == dangerous_arg_chars()[k] && a@ == args@[i]@
            },
        },
{
    let mut i: usize = 0;
    while i < args.len()
        invariant
            i <= args.len(),
            first_bad_arg(string_views(args@), 0) == first_bad_arg(string_views(args@), i as int),
        decreases args.len() - i,
    {
        let a = chars_of(args[i].as_str());
        let mut k: usize = 0;
        while k < 9
            invariant
                k <= 9,
                i < args.len(),
                a@ == args@[i as int]@,
                first_bad_arg(string_views(args@), 0) == first_bad_arg(string_views(args@), i as int),
                first_dangerous_char(a@, 0) == first_dangerous_char(a@, k as int),
            decreases 9 - k,
        {
            let ch = dangerous_arg_char(k);
            if contains_char(a.as_slice(), ch) {
                assert(string_views(args@)[i as int] == a@);
                return Err(ValidationError::DangerousArgument(ch, string_of(a.as_slice())));
            }
            k += 1;
        }
        assert(string_views(args@)[i as int] == a@);
        i += 1;
    }
    Ok(())
}

/// Validate a timeout in seconds: between 1 and 600 inclusive.
pub fn validate_timeout(timeout_secs: u64) -> (r: Result<(), ValidationError>)
    ensures
        timeout_secs < MIN_TIMEOUT_SECS ==> r == Err::<(), ValidationError>(ValidationError::TimeoutTooShort),
        timeout_secs > MAX_TIMEOUT_SECS ==> r == Err::<(), ValidationError>(ValidationError::TimeoutTooLong),
        MIN_TIMEOUT_SECS <= timeout_secs <= MAX_TIMEOUT_SECS ==> r is Ok,
{
    if timeout_secs < MIN_TIMEOUT_SECS {
        return Err(ValidationError::TimeoutTooShort);
    }
    if timeout_secs > MAX_TIMEOUT_SECS {
        return Err(ValidationError::TimeoutTooLong);
    }
    Ok(())
}

/// Validate content for a write: not empty, and at most 100MB of UTF-8 bytes.
pub fn validate_content_size(content: &str) -> (r: Result<(), ValidationError>)
    requires
        utf8_len(content@) <= usize::MAX,
    ensures
        content@.len() == 0 ==> r == Err::<(), ValidationError>(ValidationError::EmptyContent),
        content@.len() > 0 && utf8_len(content@) > MAX_CONTENT_SIZE ==> r == Err::<
            (),
            ValidationError,
        >(ValidationError::ContentTooLarge(utf8_len(content@) as usize)),
        content@.len() > 0 && utf8_len(content@) <= MAX_CONTENT_SIZE ==> r is Ok,
{
    if content.is_empty() {
        return Err(ValidationError::EmptyContent);
    }
    let n = str_byte_len(content);
    if n > MAX_CONTENT_SIZE {
        return Err(ValidationError::ContentTooLarge(n));
    }
    Ok(())
}

/// Regex fragments refused as potentially catastrophic.
pub open spec fn catastrophic_fragments() -> Seq<Seq<char>> {
    seq![seq!['(', '*', ')'], seq!['(', '+', ')'], seq!['{', '1', '0', '0', '}']]
}

/// Validate a regex pattern: not blank, and free of `(*)`, `(+)` and `{100}`.
pub fn validate_regex_pattern(pattern: &str) -> (r: Result<(), ValidationError>)
    ensures
        all_whitespace(pattern@) ==> r == Err::<(), ValidationError>(ValidationError::EmptyPattern),
        !all_whitespace(pattern@) && first_contained(pattern@, catastrophic_fragments(), 0) is Some
            ==> r == Err::<(), ValidationError>(ValidationError::CatastrophicPattern),
        !all_whitespace(pattern@) && first_contained(pattern@, catastrophic_fragments(), 0) is None
            ==> r is Ok,
{
    let p = chars_of(pattern);
    if is_blank(p.as_slice()) {
        return Err(ValidationError::EmptyPattern);
    }
    let a = contains_chars(p.as_slice(), &['(', '*', ')']);
    let b = contains_chars(p.as_slice(), &['(', '+', ')']);
    let c = contains_chars(p.as_slice(), &['{', '1', '0', '0', '}']);
    proof {
        reveal_with_fuel(first_contained, 4);
    }
    if a || b || c {
        return Err(ValidationError::CatastrophicPattern);
    }
    Ok(())
}

/// Validate a read offset and limit: offset at most 1,000,000; limit not zero
/// and at most 100,000.
pub fn validate_read_range(offset: Option<usize>, limit: Option<usize>) -> (r: Result<(), ValidationError>)
    ensures
        offset is Some && offset->0 > MAX_OFFSET ==> r == Err::<(), ValidationError>(
            ValidationError::OffsetTooLarge(offset->0),
        ),
        !(offset is Some && offset->0 > MAX_OFFSET) && limit == Some(0usize) ==> r == Err::<
            (),
            ValidationError,
        >(ValidationError::ZeroLimit),
        !(offset is Some && offset->0 > MAX_OFFSET) && limit is Some && limit->0 > MAX_LIMIT ==> r
            == Err::<(), ValidationError>(ValidationError::LimitTooLarge(limit->0)),
        r is Ok <==> !(offset is Some && offset->0 > MAX_OFFSET) && !(limit is Some && (limit->0
            == 0 || limit->0 > MAX_LIMIT)),
{
    if let Some(off) = offset {
        if off > MAX_OFFSET {
            return Err(ValidationError::OffsetTooLarge(off));
        }
    }
    if let Some(lim) = limit {
        if lim == 0 {
            return Err(ValidationError::ZeroLimit);
        }
        if lim > MAX_LIMIT {
            return Err(ValidationError::LimitTooLarge(lim));
        }
    }
    Ok(())
}

/// Validate that a field's value is not empty or only whitespace.
pub fn validate_non_empty_string(value: &str, field_name: &str) -> (r: Result<(), ValidationError>)
    ensures
        all_whitespace(value@) ==> (r matches Err(ValidationError::EmptyField(f)) && f@ == field_name@),
        !all_whitespace(value@) ==> r is Ok,
{
    let v = chars_of(value);
    if is_blank(v.as_slice()) {
        return Err(ValidationError::EmptyField(field_name.to_owned()));
    }
    Ok(())
}

/// What `validate_file_type_for_operation` answers for a file kind and operation.
pub open spec fn file_type_check(file_type: FileType, op: FileOperationType) -> Result<(), ValidationError> {
    match op {
        FileOperationType::Read => if file_type == FileType::Other {
            Err(ValidationError::SpecialFileRead)
        } else {
            Ok(())
        },
        _ => if file_type == FileType::Directory {
            Err(ValidationError::WriteToDirectory)
        } else if file_type == FileType::Other {
            Err(ValidationError::SpecialFileWrite)
        } else {
            Ok(())
        },
    }
}

/// Validate that a file kind suits the operation: special files cannot be
/// read; directories and special files cannot be written or edited.
pub fn validate_file_type_for_operation(file_type: FileType, operation: FileOperationType) -> (r:
    Result<(), ValidationError>)
    ensures
        r == file_type_check(file_type, operation),
{
    match operation {
        FileOperationType::Read => {
            if file_type == FileType::Other {
                return Err(ValidationError::SpecialFileRead);
            }
        },
        FileOperationType::Write | FileOperationType::Edit => {
            if file_type == FileType::Directory {
                return Err(ValidationError::WriteToDirectory);
            }
            if file_type == FileType::Other {
                return Err(ValidationError::SpecialFileWrite);
            }
        },
    }
    Ok(())
}

/// Validate a symlink depth: below 8.
pub fn validate_symlink_safe(current_depth: usize) -> (r: Result<(), ValidationError>)
    ensures
        current_depth >= MAX_SYMLINK_DEPTH ==> r == Err::<(), ValidationError>(ValidationError::SymlinkTooDeep),
        current_depth < MAX_SYMLINK_DEPTH ==> r is Ok,
{
    if current_depth >= MAX_SYMLINK_DEPTH {
        return Err(ValidationError::SymlinkTooDeep);
    }
    Ok(())
}

pub open spec fn seq_parent_slash() -> Seq<char> {
    seq!['.', '.', '/']
}

pub open spec fn seq_parent_backslash() -> Seq<char> {
    seq!['.', '.', '\\']
}

pub open spec fn seq_tmp_dir() -> Seq<char> {
    seq!['/', 't', 'm', 'p', '/']
}

/// Validate a path against symlink attacks: no `../` or `..\`, and no
/// absolute path through `/tmp/`.
pub fn validate_symlink_security(path: &str) -> (r: Result<(), ValidationError>)
    ensures
        contains(path@, seq_parent_slash()) || contains(path@, seq_parent_backslash()) ==> r
            == Err::<(), ValidationError>(ValidationError::SymlinkParentReference),
        !(contains(path@, seq_parent_slash()) || contains(path@, seq_parent_backslash()))
            && starts_with(path@, seq!['/']) && contains(path@, seq_tmp_dir()) ==> r == Err::<
            (),
            ValidationError,
        >(ValidationError::SymlinkInTmp),
        !(contains(path@, seq_parent_slash()) || contains(path@, seq_parent_backslash()))
            && !(starts_with(path@, seq!['/']) && contains(path@, seq_tmp_dir())) ==> r is Ok,
{
    let p = chars_of(path);
    if contains_chars(p.as_slice(), &['.', '.', '/']) || contains_chars(
        p.as_slice(),
        &['.', '.', '\\'],
    ) {
        return Err(ValidationError::SymlinkParentReference);
    }
    let slash: [char; 1] = ['/'];
    proof {
        assert(slash@ =~= seq!['/']);
    }
    if starts_with_chars(p.as_slice(), &slash) && contains_chars(
        p.as_slice(),
        &['/', 't', 'm', 'p', '/'],
    ) {
        return Err(ValidationError::SymlinkInTmp);
    }
    Ok(())
}

/// The message describing a validation failure.
pub open spec fn validation_message(e: ValidationError) -> Seq<char> {
    match e {
        ValidationError::EmptyPath => "Path cannot be empty"@,
        ValidationError::PathTraversal => "Path contains '..' which may lead to directory traversal"@,
        ValidationError::NullByte => "Path contains null byte"@,
        ValidationError::EmptyCommand => "Command cannot be empty"@,
        ValidationError::DangerousPattern(p) => "Command contains dangerous pattern '"@ + p@
            + "'. Command chaining and redirection are not allowed"@,
        ValidationError::InvalidCommandName(n) => "Command name contains invalid characters: '"@ + n@ + "'"@,
        ValidationError::DangerousArgument(c, a) => "Argument contains dangerous character '"@ + seq![c] + "': '"@
            + a@ + "'"@,
        ValidationError::TimeoutTooShort => "Timeout must be at least 1 second"@,
        ValidationError::TimeoutTooLong => "Timeout cannot exceed 600 seconds (10 minutes)"@,
        ValidationError::EmptyContent => "Content cannot be empty"@,
        ValidationError::ContentTooLarge(n) => "Content size ("@ + decimal(n as nat)
            + ") exceeds maximum allowed size of 104857600 bytes (100 MB)"@,
        ValidationError::EmptyPattern => "Pattern cannot be empty"@,
        ValidationError::CatastrophicPattern => "Pattern contains potentially catastrophic regex syntax"@,
        ValidationError::OffsetTooLarge(o) => "Offset "@ + decimal(o as nat) + " is too large. Maximum is 1000000"@,
        ValidationError::ZeroLimit => "Limit cannot be zero"@,
        ValidationError::LimitTooLarge(l) => "Limit "@ + decimal(l as nat) + " is too large. Maximum is 100000"@,
        ValidationError::EmptyField(f) => f@ + " cannot be empty"@,
        ValidationError::SpecialFileRead => "Cannot read special file (device, socket, etc.)"@,
        ValidationError::WriteToDirectory => "Cannot write to directory"@,
        ValidationError::SpecialFileWrite => "Cannot write to special file (device, socket, etc.)"@,
        ValidationError::SymlinkTooDeep => "Symlink depth exceeds maximum allowed depth of 8 (possible circular symlink)"@,
        ValidationError::SymlinkParentReference => "Path contains parent directory references that may be unsafe with symlinks"@,
        ValidationError::SymlinkInTmp => "Path may be vulnerable to symlink attacks in /tmp"@,
    }
}

impl ValidationError {
    /// The message describing the failure.
    pub fn message(&self) -> (r: String)
        ensures
            r@ == validation_message(*self),
    {
        let mut v: Vec<char> = Vec::new();
        match self {
            ValidationError::EmptyPath => extend_str(&mut v, "Path cannot be empty"),
            ValidationError::PathTraversal => extend_str(&mut v, "Path contains '..' which may lead to directory traversal"),
            ValidationError::NullByte => extend_str(&mut v, "Path contains null byte"),
            ValidationError::EmptyCommand => extend_str(&mut v, "Command cannot be empty"),
            ValidationError::DangerousPattern(p) => {
                extend_str(&mut v, "Command contains dangerous pattern '");
                extend_str(&mut v, p.as_str());
                extend_str(&mut v, "'. Command chaining and redirection are not allowed");
            },
            ValidationError::InvalidCommandName(n) => {
                extend_str(&mut v, "Command name contains invalid characters: '");
                extend_str(&mut v, n.as_str());
                extend_str(&mut v, "'");
            },
            ValidationError::DangerousArgument(c, a) => {
                extend_str(&mut v, "Argument contains dangerous character '");
                v.push(*c);
                extend_str(&mut v, "': '");
                extend_str(&mut v, a.as_str());
                extend_str(&mut v, "'");
            },
            ValidationError::TimeoutTooShort => extend_str(&mut v, "Timeout must be at least 1 second"),
            ValidationError::TimeoutTooLong => extend_str(&mut v, "Timeout cannot exceed 600 seconds (10 minutes)"),
            ValidationError::EmptyContent => extend_str(&mut v, "Content cannot be empty"),
            ValidationError::ContentTooLarge(n) => {
                extend_str(&mut v, "Content size (");
                let d = decimal_chars(*n as u64);
                extend_chars(&mut v, d.as_slice());
                extend_str(&mut v, ") exceeds maximum allowed size of 104857600 bytes (100 MB)");
            },
            ValidationError::EmptyPattern => extend_str(&mut v, "Pattern cannot be empty"),
            ValidationError::CatastrophicPattern => extend_str(&mut v, "Pattern contains potentially catastrophic regex syntax"),
            ValidationError::OffsetTooLarge(o) => {
                extend_str(&mut v, "Offset ");
                let d = decimal_chars(*o as u64);
                extend_chars(&mut v, d.as_slice());
                extend_str(&mut v, " is too large. Maximum is 1000000");
            },
            ValidationError::ZeroLimit => extend_str(&mut v, "Limit cannot be zero"),
            ValidationError::LimitTooLarge(l) => {
                extend_str(&mut v, "Limit ");
                let d = decimal_chars(*l as u64);
                extend_chars(&mut v, d.as_slice());
                extend_str(&mut v, " is too large. Maximum is 100000");
            },
            ValidationError::EmptyField(f) => {
                extend_str(&mut v, f.as_str());
                extend_str(&mut v, " cannot be empty");
            },
            ValidationError::SpecialFileRead => extend_str(&mut v, "Cannot read special file (device, socket, etc.)"),
            ValidationError::WriteToDirectory => extend_str(&mut v, "Cannot write to directory"),
            ValidationError::SpecialFileWrite => extend_str(&mut v, "Cannot write to special file (device, socket, etc.)"),
            ValidationError::SymlinkTooDeep => extend_str(&mut v, "Symlink depth exceeds maximum allowed depth of 8 (possible circular symlink)"),
            ValidationError::SymlinkParentReference => extend_str(&mut v, "Path contains parent directory references that may be unsafe with symlinks"),
            ValidationError::SymlinkInTmp => extend_str(&mut v, "Path may be vulnerable to symlink attacks in /tmp"),
        }
        string_of(v.as_slice())
    }
}

/// The message `validate_path` fails with, if any.
pub open spec fn path_error(p: Seq<char>) -> Option<Seq<char>> {
    if all_whitespace(p) {
        Some(validation_message(ValidationError::EmptyPath))
    } else if contains(p, seq_dot_dot()) {
        Some(validation_message(ValidationError::PathTraversal))
    } else if has_char(p, '\0') {
        Some(validation_message(ValidationError::NullByte))
    } else {
        None
    }
}

/// The message `validate_command` fails with, if any.
pub open spec fn command_error(c: Seq<char>) -> Option<Seq<char>> {
    if all_whitespace(c) {
        Some("Command cannot be empty"@)
    } else {
        match first_contained(c, dangerous_patterns(), 0) {
            Some(k) => Some("Command contains dangerous pattern '"@ + dangerous_patterns()[k]
                + "'. Command chaining and redirection are not allowed"@),
            None => if command_name_ok(first_word(c)) {
                None
            } else {
                Some("Command name contains invalid characters: '"@ + first_word(c) + "'"@)
            },
        }
    }
}

/// The message `validate_command_args` fails with, if any.
pub open spec fn args_error(args: Seq<Seq<char>>) -> Option<Seq<char>> {
    match first_bad_arg(args, 0) {
        None => None,
        Some(i) => Some("Argument contains dangerous character '"@ + seq![
            dangerous_arg_chars()[first_dangerous_char(args[i], 0)->0],
        ] + "': '"@ + args[i] + "'"@),
    }
}

/// The message `validate_timeout` fails with, if any.
pub open spec fn timeout_error(t: u64) -> Option<Seq<char>> {
    if t < MIN_TIMEOUT_SECS {
        Some(validation_message(ValidationError::TimeoutTooShort))
    } else if t > MAX_TIMEOUT_SECS {
        Some(validation_message(ValidationError::TimeoutTooLong))
    } else {
        None
    }
}

/// The message `validate_read_range` fails with, if any.
pub open spec fn range_error(offset: Option<usize>, limit: Option<usize>) -> Option<Seq<char>> {
    if offset is Some && offset->0 > MAX_OFFSET {
        Some(validation_message(ValidationError::OffsetTooLarge(offset->0)))
    } else if limit == Some(0usize) {
        Some(validation_message(ValidationError::ZeroLimit))
    } else if limit is Some && limit->0 > MAX_LIMIT {
        Some(validation_message(ValidationError::LimitTooLarge(limit->0)))
    } else {
        None
    }
}

/// The message `validate_content_size` fails with, if any.
pub open spec fn content_error(c: Seq<char>) -> Option<Seq<char>> {
    if c.len() == 0 {
        Some(validation_message(ValidationError::EmptyContent))
    } else if utf8_len(c) > MAX_CONTENT_SIZE {
        Some(validation_message(ValidationError::ContentTooLarge(utf8_len(c) as usize)))
    } else {
        None
    }
}

/// The message `validate_regex_pattern` fails with, if any.
pub open spec fn pattern_error(p: Seq<char>) -> Option<Seq<char>> {
    if all_whitespace(p) {
        Some(validation_message(ValidationError::EmptyPattern))
    } else if first_contained(p, catastrophic_fragments(), 0) is Some {
        Some(validation_message(ValidationError::CatastrophicPattern))
    } else {
        None
    }
}

/// The message `validate_non_empty_string` fails with, if any.
pub open spec fn field_error(v: Seq<char>, field: Seq<char>) -> Option<Seq<char>> {
    if all_whitespace(v) { Some(field + " cannot be empty"@) } else { None }
}

/// The message of a failed validation, or nothing.
pub fn failure_message(r: Result<(), ValidationError>) -> (m: Option<String>)
    ensures
        match r {
            Ok(()) => m is None,
            Err(e) => m matches Some(s) && s@ == validation_message(e),
        },
{
    match r {
        Ok(()) => None,
        Err(e) => Some(e.message()),
    }
}

/// The argument found by `first_bad_arg` is among the arguments.
pub proof fn lemma_first_bad_arg(args: Seq<Seq<char>>, j: int)
    ensures
        first_bad_arg(args, j) matches Some(i) ==> j <= i < args.len(),
    decreases args.len() - j,
{
    if 0 <= j < args.len() && first_dangerous_char(args[j], 0) is None {
        lemma_first_bad_arg(args, j + 1);
    }
}

} // verus!
