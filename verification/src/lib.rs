use vstd::prelude::*;

verus! {

/// A closed set of symbolic categories of text patterns (file paths, log
/// lines, version numbers, web links, ...). A value is an opaque category
/// identity with no payload; its one attribute is the canonical placeholder
/// label that [`Marker::string_marker`] returns.
#[derive(Clone, Copy, PartialEq, Eq, Structural, Debug)]
pub enum Marker {
    Attachment,
    ClassName,
    CloudInstanceSpec,
    Date,
    FilePath,
    FormattedLogging,
    FormattedTraceback,
    GithubLink,
    ImageAttachment,
    InlineCode,
    IssueLink,
    IPAddress,
    Log,
    MethodOrVariableName,
    NoFormatBlock,
    PackageName,
    SimpleClassName,
    SimpleMethodOrVariableName,
    StorageSize,
    StructuredCodeBlock,
    TechnologyName,
    Traceback,
    UnformattedLog,
    UnformattedTraceback,
    UserProfileLink,
    VersionNumber,
    WebLink,
}

/// The canonical label of a category, as the sequence of characters that
/// [`Marker::string_marker`] returns. The match is exhaustive and has no
/// default arm, so the mapping is total over the closed variant set and
/// adding a variant without a label is a build-time error.
pub open spec fn label_of(m: Marker) -> Seq<char> {
    match m {
        Marker::Attachment => "ATTACHMENT"@,
        Marker::ClassName => "CLASSNAME"@,
        Marker::CloudInstanceSpec => "CLOUDINSTANCE"@,
        Marker::Date => "DATE"@,
        Marker::FilePath => "FILEPATH"@,
        Marker::FormattedLogging => "FORMATTEDLOGGINGOUTPUT"@,
        Marker::FormattedTraceback => "FORMATTEDTRACEBACK"@,
        Marker::GithubLink => "GITHUBLINK"@,
        Marker::ImageAttachment => "IMAGEATTACHMENT"@,
        Marker::InlineCode => "INLINECODESAMPLE"@,
        Marker::IssueLink => "ISSUELINK"@,
        Marker::IPAddress => "IP ADDRESS"@,
        Marker::Log => "LLLOG"@,
        Marker::MethodOrVariableName => "METHODORVARIABLENAME"@,
        Marker::NoFormatBlock => "NOFORMATBLOCK"@,
        Marker::PackageName => "PACKAGE"@,
        Marker::SimpleClassName => "SIMPLECLASSNAME"@,
        Marker::SimpleMethodOrVariableName => "SIMPLEMETHODORVARIABLENAME"@,
        Marker::StorageSize => "STORAGESIZE"@,
        Marker::StructuredCodeBlock => "STRUCTUREDCODEBLOCK"@,
        Marker::TechnologyName => "TECHNOLOGYNAMES"@,
        Marker::Traceback => "TTTRACEBACK"@,
        Marker::UnformattedLog => "UNFORMATTEDLOGGINGOUTPUT"@,
        Marker::UnformattedTraceback => "UNFORMATTEDTRACEBACK"@,
        Marker::UserProfileLink => "USERPROFILELINK"@,
        Marker::VersionNumber => "VERSIONNUMBER"@,
        Marker::WebLink => "WEBLINK"@,
    }
}

impl Marker {
    /// Returns the declared variants. As it stands it enumerates none of
    /// them: the result is always empty, which callers that expect the full
    /// variant set must not rely on.
    pub fn all_markers() -> (r: Vec<Marker>)
        ensures
            r@ == Seq::<Marker>::empty(),
    {
        Vec::new()
    }

    /// The canonical placeholder label for this category: a fixed, non-empty
    /// string determined by the variant alone.
    pub fn string_marker(&self) -> (r: String)
        ensures
            r@ == label_of(*self),
            r@.len() > 0,
    {
        proof {
            lemma_label_nonempty(*self);
        }
        let s: &str = match self {
            Marker::Attachment => "ATTACHMENT",
            Marker::ClassName => "CLASSNAME",
            Marker::CloudInstanceSpec => "CLOUDINSTANCE",
            Marker::Date => "DATE",
            Marker::FilePath => "FILEPATH",
            Marker::FormattedLogging => "FORMATTEDLOGGINGOUTPUT",
            Marker::FormattedTraceback => "FORMATTEDTRACEBACK",
            Marker::GithubLink => "GITHUBLINK",
            Marker::ImageAttachment => "IMAGEATTACHMENT",
            Marker::InlineCode => "INLINECODESAMPLE",
            Marker::IssueLink => "ISSUELINK",
            Marker::IPAddress => "IP ADDRESS",
            Marker::Log => "LLLOG",
            Marker::MethodOrVariableName => "METHODORVARIABLENAME",
            Marker::NoFormatBlock => "NOFORMATBLOCK",
            Marker::PackageName => "PACKAGE",
            Marker::SimpleClassName => "SIMPLECLASSNAME",
            Marker::SimpleMethodOrVariableName => "SIMPLEMETHODORVARIABLENAME",
            Marker::StorageSize => "STORAGESIZE",
            Marker::StructuredCodeBlock => "STRUCTUREDCODEBLOCK",
            Marker::TechnologyName => "TECHNOLOGYNAMES",
            Marker::Traceback => "TTTRACEBACK",
            Marker::UnformattedLog => "UNFORMATTEDLOGGINGOUTPUT",
            Marker::UnformattedTraceback => "UNFORMATTEDTRACEBACK",
            Marker::UserProfileLink => "USERPROFILELINK",
            Marker::VersionNumber => "VERSIONNUMBER",
            Marker::WebLink => "WEBLINK",
        };
        String::from_str(s)
    }
}

/// Law: every declared variant maps to a non-empty canonical label.
pub proof fn lemma_label_nonempty(m: Marker)
    ensures
        label_of(m).len() > 0,
{
    reveal_strlit("ATTACHMENT");
    reveal_strlit("CLASSNAME");
    reveal_strlit("CLOUDINSTANCE");
    reveal_strlit("DATE");
    reveal_strlit("FILEPATH");
    reveal_strlit("FORMATTEDLOGGINGOUTPUT");
    reveal_strlit("FORMATTEDTRACEBACK");
    reveal_strlit("GITHUBLINK");
    reveal_strlit("IMAGEATTACHMENT");
    reveal_strlit("INLINECODESAMPLE");
    reveal_strlit("ISSUELINK");
    reveal_strlit("IP ADDRESS");
    reveal_strlit("LLLOG");
    reveal_strlit("METHODORVARIABLENAME");
    reveal_strlit("NOFORMATBLOCK");
    reveal_strlit("PACKAGE");
    reveal_strlit("SIMPLECLASSNAME");
    reveal_strlit("SIMPLEMETHODORVARIABLENAME");
    reveal_strlit("STORAGESIZE");
    reveal_strlit("STRUCTUREDCODEBLOCK");
    reveal_strlit("TECHNOLOGYNAMES");
    reveal_strlit("TTTRACEBACK");
    reveal_strlit("UNFORMATTEDLOGGINGOUTPUT");
    reveal_strlit("UNFORMATTEDTRACEBACK");
    reveal_strlit("USERPROFILELINK");
    reveal_strlit("VERSIONNUMBER");
    reveal_strlit("WEBLINK");
}

/// Law: the mapping is exhaustive: each declared variant has an entry of
/// its own in the label table, and none falls through to a shared default.
pub proof fn lemma_label_table()
    ensures
        label_of(Marker::Attachment) == "ATTACHMENT"@,
        label_of(Marker::ClassName) == "CLASSNAME"@,
        label_of(Marker::CloudInstanceSpec) == "CLOUDINSTANCE"@,
        label_of(Marker::Date) == "DATE"@,
        label_of(Marker::FilePath) == "FILEPATH"@,
        label_of(Marker::FormattedLogging) == "FORMATTEDLOGGINGOUTPUT"@,
        label_of(Marker::FormattedTraceback) == "FORMATTEDTRACEBACK"@,
        label_of(Marker::GithubLink) == "GITHUBLINK"@,
        label_of(Marker::ImageAttachment) == "IMAGEATTACHMENT"@,
        label_of(Marker::InlineCode) == "INLINECODESAMPLE"@,
        label_of(Marker::IssueLink) == "ISSUELINK"@,
        label_of(Marker::IPAddress) == "IP ADDRESS"@,
        label_of(Marker::Log) == "LLLOG"@,
        label_of(Marker::MethodOrVariableName) == "METHODORVARIABLENAME"@,
        label_of(Marker::NoFormatBlock) == "NOFORMATBLOCK"@,
        label_of(Marker::PackageName) == "PACKAGE"@,
        label_of(Marker::SimpleClassName) == "SIMPLECLASSNAME"@,
        label_of(Marker::SimpleMethodOrVariableName) == "SIMPLEMETHODORVARIABLENAME"@,
        label_of(Marker::StorageSize) == "STORAGESIZE"@,
        label_of(Marker::StructuredCodeBlock) == "STRUCTUREDCODEBLOCK"@,
        label_of(Marker::TechnologyName) == "TECHNOLOGYNAMES"@,
        label_of(Marker::Traceback) == "TTTRACEBACK"@,
        label_of(Marker::UnformattedLog) == "UNFORMATTEDLOGGINGOUTPUT"@,
        label_of(Marker::UnformattedTraceback) == "UNFORMATTEDTRACEBACK"@,
        label_of(Marker::UserProfileLink) == "USERPROFILELINK"@,
        label_of(Marker::VersionNumber) == "VERSIONNUMBER"@,
        label_of(Marker::WebLink) == "WEBLINK"@,
{
}

/// Law: the label lookup is pure: the label is a function of the variant
/// alone, so two lookups on equal variants return equal labels.
pub proof fn lemma_label_deterministic(m1: Marker, m2: Marker)
    requires
        m1 == m2,
    ensures
        label_of(m1) == label_of(m2),
{
}

} // verus!
