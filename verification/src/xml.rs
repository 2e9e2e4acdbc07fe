//! The XML manifest of categories, clients and accounts.
//!
//! A manifest is read in one forward pass. A small draft holds what has been
//! read of the entity at hand and counts the elements that are open; each
//! closing tag of an entity moves the draft into the configuration. A
//! document that cannot be read to its end, or that ends while an element is
//! open, has no configuration.

use vstd::prelude::*;

use crate::text::{decimal_u16, parse_u16, same_text};
use crate::xml::reading::{
    awaits_text, ended, open_reader, read_event, read_text, readings, reads_text, taken, unread,
    Reading, ReadingView, XmlAttribute, XmlAttributeView,
};

pub mod laws;
pub mod reading;

verus! {

/// The identifier that an entity is given when the manifest states none.
pub const UNINITIALIZED_ID_VALUE: u16 = 10000;

/// Everything that a manifest declares, in the order of the document.
#[derive(Debug, PartialEq, Eq)]
pub struct XmlConfig {
    pub categories: Vec<MetaProperty>,
    pub clients: Vec<MetaProperty>,
    pub accounts: Vec<Account>,
}

/// A category or a client: a named entity that accounts refer to.
#[derive(Debug, PartialEq, Eq)]
pub struct MetaProperty {
    pub id: u16,
    pub name: String,
}

/// An account as the manifest declares it.
#[derive(Debug, PartialEq, Eq)]
pub struct Account {
    pub id: u16,
    pub name: String,
    pub client_id: u16,
    pub category_id: u16,
    pub login: String,
}

/// A category or a client, its name as a sequence of characters.
pub struct MetaPropertyView {
    pub id: u16,
    pub name: Seq<char>,
}

/// An account of a manifest, its texts as sequences of characters.
pub struct AccountView {
    pub id: u16,
    pub name: Seq<char>,
    pub client_id: u16,
    pub category_id: u16,
    pub login: Seq<char>,
}

/// What a manifest declares, as sequences of views.
pub struct XmlConfigView {
    pub categories: Seq<MetaPropertyView>,
    pub clients: Seq<MetaPropertyView>,
    pub accounts: Seq<AccountView>,
}

impl View for MetaProperty {
    type V = MetaPropertyView;

    open spec fn view(&self) -> MetaPropertyView {
        MetaPropertyView { id: self.id, name: self.name@ }
    }
}

impl DeepView for MetaProperty {
    type V = MetaPropertyView;

    open spec fn deep_view(&self) -> MetaPropertyView {
        self@
    }
}

impl View for Account {
    type V = AccountView;

    open spec fn view(&self) -> AccountView {
        AccountView {
            id: self.id,
            name: self.name@,
            client_id: self.client_id,
            category_id: self.category_id,
            login: self.login@,
        }
    }
}

impl DeepView for Account {
    type V = AccountView;

    open spec fn deep_view(&self) -> AccountView {
        self@
    }
}

impl View for XmlConfig {
    type V = XmlConfigView;

    open spec fn view(&self) -> XmlConfigView {
        XmlConfigView {
            categories: self.categories.deep_view(),
            clients: self.clients.deep_view(),
            accounts: self.accounts.deep_view(),
        }
    }
}

impl Clone for MetaProperty {
    fn clone(&self) -> (copy: Self)
        ensures
            copy == *self,
    {
        MetaProperty { id: self.id, name: self.name.clone() }
    }
}

impl Clone for Account {
    fn clone(&self) -> (copy: Self)
        ensures
            copy == *self,
    {
        Account {
            id: self.id,
            name: self.name.clone(),
            client_id: self.client_id,
            category_id: self.category_id,
            login: self.login.clone(),
        }
    }
}

impl Clone for XmlConfig {
    fn clone(&self) -> (copy: Self)
        ensures
            copy@ == self@,
    {
        XmlConfig {
            categories: copy_entities(&self.categories),
            clients: copy_entities(&self.clients),
            accounts: copy_declared_accounts(&self.accounts),
        }
    }
}

/// A copy of a list of categories or clients.
pub fn copy_entities(entities: &Vec<MetaProperty>) -> (copy: Vec<MetaProperty>)
    ensures
        copy.deep_view() == entities.deep_view(),
{
    let mut copy: Vec<MetaProperty> = Vec::new();
    let mut i: usize = 0;
    while i < entities.len()
        invariant
            i <= entities.len(),
            copy.len() == i,
            forall|k: int| 0 <= k < i ==> copy[k]@ == entities[k]@,
        decreases entities.len() - i,
    {
        copy.push(entities[i].clone());
        i = i + 1;
    }
    assert(copy.deep_view() =~= entities.deep_view());
    copy
}

/// A copy of a list of accounts of a manifest.
pub fn copy_declared_accounts(accounts: &Vec<Account>) -> (copy: Vec<Account>)
    ensures
        copy.deep_view() == accounts.deep_view(),
{
    let mut copy: Vec<Account> = Vec::new();
    let mut i: usize = 0;
    while i < accounts.len()
        invariant
            i <= accounts.len(),
            copy.len() == i,
            forall|k: int| 0 <= k < i ==> copy[k]@ == accounts[k]@,
        decreases accounts.len() - i,
    {
        copy.push(accounts[i].clone());
        i = i + 1;
    }
    assert(copy.deep_view() =~= accounts.deep_view());
    copy
}

impl XmlConfigView {
    /// The configuration of a manifest that declares nothing.
    pub open spec fn empty() -> XmlConfigView {
        XmlConfigView { categories: Seq::empty(), clients: Seq::empty(), accounts: Seq::empty() }
    }
}

/// Why a manifest could not be read.
#[derive(Debug, PartialEq, Eq, Clone, Copy, Structural)]
pub enum ParseError {
    /// The document is not well-formed XML: it cannot be read to its end, or
    /// it ends while an element is open.
    SyntaxError,
    /// An `id` attribute, a `clientId` or a `categoryId` is no unsigned
    /// 16-bit decimal number.
    InvalidNumber,
}

/// The three kinds of entity of a manifest.
#[derive(Debug, PartialEq, Eq, Clone, Copy, Structural)]
pub enum Entity {
    Category,
    Client,
    Account,
}

/// The four child elements whose text a manifest entity is made of.
#[derive(Debug, PartialEq, Eq, Clone, Copy, Structural)]
pub enum Field {
    Name,
    Login,
    ClientId,
    CategoryId,
}

/// The entity that a tag name stands for, if any.
pub open spec fn entity_of(name: Seq<char>) -> Option<Entity> {
    if name == "Category"@ {
        Some(Entity::Category)
    } else if name == "Client"@ {
        Some(Entity::Client)
    } else if name == "Account"@ {
        Some(Entity::Account)
    } else {
        None
    }
}

/// The field that a tag name stands for, if any.
pub open spec fn field_of(name: Seq<char>) -> Option<Field> {
    if name == "name"@ {
        Some(Field::Name)
    } else if name == "login"@ {
        Some(Field::Login)
    } else if name == "clientId"@ {
        Some(Field::ClientId)
    } else if name == "categoryId"@ {
        Some(Field::CategoryId)
    } else {
        None
    }
}

impl Entity {
    /// The tag name of the entity.
    pub open spec fn tag_view(self) -> Seq<char> {
        match self {
            Entity::Category => "Category"@,
            Entity::Client => "Client"@,
            Entity::Account => "Account"@,
        }
    }
}

impl Field {
    /// The tag name of the field.
    pub open spec fn tag_view(self) -> Seq<char> {
        match self {
            Field::Name => "name"@,
            Field::Login => "login"@,
            Field::ClientId => "clientId"@,
            Field::CategoryId => "categoryId"@,
        }
    }

    /// The tag name of the field.
    pub fn tag(self) -> (name: &'static str)
        ensures
            name@ == self.tag_view(),
    {
        match self {
            Field::Name => "name",
            Field::Login => "login",
            Field::ClientId => "clientId",
            Field::CategoryId => "categoryId",
        }
    }
}

/// The entity that a tag name stands for, if any.
pub fn entity_for(name: &str) -> (entity: Option<Entity>)
    ensures
        entity == entity_of(name@),
{
    if same_text(name, "Category") {
        Some(Entity::Category)
    } else if same_text(name, "Client") {
        Some(Entity::Client)
    } else if same_text(name, "Account") {
        Some(Entity::Account)
    } else {
        None
    }
}

/// The field that a tag name stands for, if any.
pub fn field_for(name: &str) -> (field: Option<Field>)
    ensures
        field == field_of(name@),
        field matches Some(f) ==> f.tag_view() == name@,
{
    if same_text(name, "name") {
        Some(Field::Name)
    } else if same_text(name, "login") {
        Some(Field::Login)
    } else if same_text(name, "clientId") {
        Some(Field::ClientId)
    } else if same_text(name, "categoryId") {
        Some(Field::CategoryId)
    } else {
        None
    }
}

/// No tag name stands for an entity and for a field at once; the fields are
/// the tags whose content is read as one text; and each entity and each field
/// is the one that its own tag name stands for.
pub proof fn lemma_tag_kinds(name: Seq<char>)
    ensures
        entity_of(name) is Some ==> field_of(name) is None,
        field_of(name) is Some <==> reads_text(name),
        field_of(name) matches Some(field) ==> field.tag_view() == name,
        entity_of(name) matches Some(entity) ==> entity.tag_view() == name,
        forall|field: Field| #[trigger] field_of(field.tag_view()) == Some(field),
        forall|entity: Entity| #[trigger] entity_of(entity.tag_view()) == Some(entity),
{
    reveal_strlit("Category");
    reveal_strlit("Client");
    reveal_strlit("Account");
    reveal_strlit("name");
    reveal_strlit("login");
    reveal_strlit("clientId");
    reveal_strlit("categoryId");
    assert("Category"@.len() == 8 && "Client"@.len() == 6 && "Account"@.len() == 7);
    assert("name"@.len() == 4 && "login"@.len() == 5 && "clientId"@.len() == 8);
    assert("categoryId"@.len() == 10);
    assert("Category"@[0] == 'C' && "clientId"@[0] == 'c');
}

/// The value of the first attribute whose key is `id`. An attribute that
/// could not be read is passed over.
pub open spec fn id_attribute(attributes: Seq<Option<XmlAttributeView>>) -> Option<Seq<char>>
    decreases attributes.len(),
{
    if attributes.len() == 0 {
        None
    } else {
        match attributes[0] {
            Some(attribute) if attribute.key == "id"@ => Some(attribute.value),
            _ => id_attribute(attributes.drop_first()),
        }
    }
}

/// The identifier that the attributes of an opening tag state: none where no
/// attribute is called `id`, an error where the first of that name is no
/// number.
pub open spec fn element_id(attributes: Seq<Option<XmlAttributeView>>) -> Result<
    Option<u16>,
    ParseError,
> {
    match id_attribute(attributes) {
        None => Ok(None),
        Some(value) => match decimal_u16(value) {
            Some(id) => Ok(Some(id)),
            None => Err(ParseError::InvalidNumber),
        },
    }
}

/// Reads the identifier from the attributes of an opening tag.
pub fn get_element_id_attribute(attributes: &Vec<Option<XmlAttribute>>) -> (id: Result<
    Option<u16>,
    ParseError,
>)
    ensures
        id == element_id(attributes.deep_view()),
{
    let mut i: usize = 0;
    assert(attributes.deep_view().skip(0) =~= attributes.deep_view());
    while i < attributes.len()
        invariant
            i <= attributes.len(),
            id_attribute(attributes.deep_view()) == id_attribute(
                attributes.deep_view().skip(i as int),
            ),
        decreases attributes.len() - i,
    {
        let ghost rest = attributes.deep_view().skip(i as int);
        assert(rest[0] == attributes[i as int].deep_view());
        assert(rest.drop_first() =~= attributes.deep_view().skip(i + 1));
        match &attributes[i] {
            Some(attribute) => {
                if same_text(attribute.key.as_str(), "id") {
                    return match parse_u16(attribute.value.as_str()) {
                        Some(id) => Ok(Some(id)),
                        None => Err(ParseError::InvalidNumber),
                    };
                }
            },
            None => {},
        }
        i = i + 1;
    }
    Ok(None)
}

/// What has been read of a manifest so far.
pub struct ManifestDraft {
    pub current_id: Option<u16>,
    pub current_name: String,
    pub current_login: String,
    pub current_client_id: Option<u16>,
    pub current_category_id: Option<u16>,
    /// The field whose tag was opened last, while its text is still to come.
    pub awaited: Option<Field>,
    /// How many elements are open. The element of a field is not counted: it
    /// is closed when its text has been read.
    pub open_elements: usize,
    pub config: XmlConfig,
}

/// A draft, its texts as sequences of characters.
pub struct ManifestDraftView {
    pub current_id: Option<u16>,
    pub current_name: Seq<char>,
    pub current_login: Seq<char>,
    pub current_client_id: Option<u16>,
    pub current_category_id: Option<u16>,
    pub awaited: Option<Field>,
    pub open_elements: usize,
    pub config: XmlConfigView,
}

impl View for ManifestDraft {
    type V = ManifestDraftView;

    open spec fn view(&self) -> ManifestDraftView {
        ManifestDraftView {
            current_id: self.current_id,
            current_name: self.current_name@,
            current_login: self.current_login@,
            current_client_id: self.current_client_id,
            current_category_id: self.current_category_id,
            awaited: self.awaited,
            open_elements: self.open_elements,
            config: self.config@,
        }
    }
}

/// The identifier that is written out for one that may be missing.
pub open spec fn id_or_sentinel(id: Option<u16>) -> u16 {
    match id {
        Some(id) => id,
        None => UNINITIALIZED_ID_VALUE,
    }
}

impl ManifestDraftView {
    /// The draft before anything is read.
    pub open spec fn empty() -> ManifestDraftView {
        ManifestDraftView {
            current_id: None,
            current_name: Seq::empty(),
            current_login: Seq::empty(),
            current_client_id: None,
            current_category_id: None,
            awaited: None,
            open_elements: 0,
            config: XmlConfigView::empty(),
        }
    }

    /// The category or client that the draft holds.
    pub open spec fn entity(self) -> MetaPropertyView {
        MetaPropertyView { id: id_or_sentinel(self.current_id), name: self.current_name }
    }

    /// The account that the draft holds.
    pub open spec fn account(self) -> AccountView {
        AccountView {
            id: id_or_sentinel(self.current_id),
            name: self.current_name,
            client_id: id_or_sentinel(self.current_client_id),
            category_id: id_or_sentinel(self.current_category_id),
            login: self.current_login,
        }
    }

    /// An entity tag opens: its identifier replaces the one at hand.
    pub open spec fn open_entity(self, id: Option<u16>) -> ManifestDraftView {
        ManifestDraftView { current_id: id, awaited: None, ..self }
    }

    /// The text of a field arrives.
    pub open spec fn fill(self, field: Field, content: Seq<char>) -> Result<
        ManifestDraftView,
        ParseError,
    > {
        match field {
            Field::Name => Ok(ManifestDraftView { current_name: content, awaited: None, ..self }),
            Field::Login => Ok(ManifestDraftView { current_login: content, awaited: None, ..self }),
            Field::ClientId => match decimal_u16(content) {
                Some(id) => Ok(
                    ManifestDraftView { current_client_id: Some(id), awaited: None, ..self },
                ),
                None => Err(ParseError::InvalidNumber),
            },
            Field::CategoryId => match decimal_u16(content) {
                Some(id) => Ok(
                    ManifestDraftView { current_category_id: Some(id), awaited: None, ..self },
                ),
                None => Err(ParseError::InvalidNumber),
            },
        }
    }

    /// An entity tag closes: the entity joins the configuration, and the
    /// draft forgets the identifier; after a client also the name; after an
    /// account everything.
    pub open spec fn close_entity(self, entity: Entity) -> ManifestDraftView {
        match entity {
            Entity::Category => ManifestDraftView {
                current_id: None,
                awaited: None,
                config: XmlConfigView {
                    categories: self.config.categories.push(self.entity()),
                    ..self.config
                },
                ..self
            },
            Entity::Client => ManifestDraftView {
                current_id: None,
                current_name: Seq::empty(),
                awaited: None,
                config: XmlConfigView {
                    clients: self.config.clients.push(self.entity()),
                    ..self.config
                },
                ..self
            },
            Entity::Account => ManifestDraftView {
                current_id: None,
                current_name: Seq::empty(),
                current_login: Seq::empty(),
                current_client_id: None,
                current_category_id: None,
                awaited: None,
                config: XmlConfigView {
                    accounts: self.config.accounts.push(self.account()),
                    ..self.config
                },
                ..self
            },
        }
    }

    /// An element opens that is not a field: it is counted, and if it is an
    /// entity, its identifier replaces the one at hand. An element that is
    /// nested deeper than can be counted is refused.
    pub open spec fn open_element(
        self,
        name: Seq<char>,
        attributes: Seq<Option<XmlAttributeView>>,
    ) -> Result<ManifestDraftView, ParseError> {
        if self.open_elements == usize::MAX {
            Err(ParseError::SyntaxError)
        } else {
            let opened = ManifestDraftView {
                open_elements: (self.open_elements + 1) as usize,
                awaited: None,
                ..self
            };
            match entity_of(name) {
                Some(_) => match element_id(attributes) {
                    Ok(id) => Ok(opened.open_entity(id)),
                    Err(e) => Err(e),
                },
                None => Ok(opened),
            }
        }
    }

    /// An element closes: one element less is open, and if it is an entity,
    /// the entity joins the configuration. A closing tag while no element is
    /// open is refused.
    pub open spec fn close_element(self, name: Seq<char>) -> Result<
        ManifestDraftView,
        ParseError,
    > {
        if self.open_elements == 0 {
            Err(ParseError::SyntaxError)
        } else {
            let closed = ManifestDraftView {
                open_elements: (self.open_elements - 1) as usize,
                awaited: None,
                ..self
            };
            match entity_of(name) {
                Some(entity) => Ok(closed.close_entity(entity)),
                None => Ok(closed),
            }
        }
    }

    /// The draft after one more reading, or the error that the reading is.
    pub open spec fn step(self, reading: ReadingView) -> Result<ManifestDraftView, ParseError> {
        match reading {
            ReadingView::Open { name, attributes } => match field_of(name) {
                Some(field) => Ok(ManifestDraftView { awaited: Some(field), ..self }),
                None => self.open_element(name, attributes),
            },
            ReadingView::Text { content } => match self.awaited {
                Some(field) => self.fill(field, content),
                None => Ok(self),
            },
            ReadingView::Close { name } => self.close_element(name),
            ReadingView::Other => Ok(ManifestDraftView { awaited: None, ..self }),
            ReadingView::Eof => Ok(self),
            ReadingView::Malformed => Err(ParseError::SyntaxError),
        }
    }

    /// The configuration of a document that ends here: the one read so far,
    /// unless an element is still open.
    pub open spec fn finished(self) -> Result<XmlConfigView, ParseError> {
        if self.open_elements == 0 {
            Ok(self.config)
        } else {
            Err(ParseError::SyntaxError)
        }
    }

    /// The configuration that the readings lead to from this draft: they are
    /// taken in order up to the first `Eof`, or to their end, where the
    /// document must have closed every element that it opened. The first
    /// error is the result, and nothing of the draft is kept.
    pub open spec fn scan(self, readings: Seq<ReadingView>) -> Result<XmlConfigView, ParseError>
        decreases readings.len(),
    {
        if readings.len() == 0 || readings[0] is Eof {
            self.finished()
        } else {
            match self.step(readings[0]) {
                Ok(next) => next.scan(readings.drop_first()),
                Err(e) => Err(e),
            }
        }
    }
}

/// The configuration that a sequence of readings declares.
pub open spec fn manifest_of(readings: Seq<ReadingView>) -> Result<XmlConfigView, ParseError> {
    ManifestDraftView::empty().scan(readings)
}

/// The view of the outcome of reading a manifest.
pub open spec fn outcome_view(outcome: Result<XmlConfig, ParseError>) -> Result<
    XmlConfigView,
    ParseError,
> {
    match outcome {
        Ok(config) => Ok(config@),
        Err(e) => Err(e),
    }
}

impl ManifestDraft {
    /// A draft that has read nothing.
    pub fn new() -> (draft: ManifestDraft)
        ensures
            draft@ == ManifestDraftView::empty(),
    {
        let draft = ManifestDraft {
            current_id: None,
            current_name: String::new(),
            current_login: String::new(),
            current_client_id: None,
            current_category_id: None,
            awaited: None,
            open_elements: 0,
            config: XmlConfig { categories: Vec::new(), clients: Vec::new(), accounts: Vec::new() },
        };
        assert(draft.config.categories.deep_view() =~= Seq::empty());
        assert(draft.config.clients.deep_view() =~= Seq::empty());
        assert(draft.config.accounts.deep_view() =~= Seq::empty());
        draft
    }

    /// Takes one more reading into the draft.
    pub fn accept(&mut self, reading: &Reading) -> (outcome: Result<(), ParseError>)
        ensures
            match old(self)@.step(reading@) {
                Ok(next) => outcome is Ok && final(self)@ == next,
                Err(e) => outcome == Err::<(), ParseError>(e) && final(self)@ == old(self)@,
            },
    {
        match reading {
            Reading::Open { name, attributes } => {
                proof {
                    lemma_tag_kinds(name@);
                }
                match field_for(name.as_str()) {
                    Some(field) => {
                        self.awaited = Some(field);
                    },
                    None => {
                        if self.open_elements == usize::MAX {
                            return Err(ParseError::SyntaxError);
                        }
                        if entity_for(name.as_str()).is_some() {
                            let id = get_element_id_attribute(attributes)?;
                            self.current_id = id;
                        }
                        self.open_elements = self.open_elements + 1;
                        self.awaited = None;
                    },
                }
            },
            Reading::Text { content } => {
                match self.awaited {
                    Some(Field::Name) => {
                        self.current_name = content.clone();
                    },
                    Some(Field::Login) => {
                        self.current_login = content.clone();
                    },
                    Some(Field::ClientId) => {
                        match parse_u16(content.as_str()) {
                            Some(id) => {
                                self.current_client_id = Some(id);
                            },
                            None => {
                                return Err(ParseError::InvalidNumber);
                            },
                        }
                    },
                    Some(Field::CategoryId) => {
                        match parse_u16(content.as_str()) {
                            Some(id) => {
                                self.current_category_id = Some(id);
                            },
                            None => {
                                return Err(ParseError::InvalidNumber);
                            },
                        }
                    },
                    None => {},
                }
                self.awaited = None;
            },
            Reading::Close { name } => {
                if self.open_elements == 0 {
                    return Err(ParseError::SyntaxError);
                }
                self.open_elements = self.open_elements - 1;
                self.awaited = None;
                match entity_for(name.as_str()) {
                    Some(entity) => self.close(entity),
                    None => {},
                }
            },
            Reading::Other => {
                self.awaited = None;
            },
            Reading::Eof => {},
            Reading::Malformed => {
                return Err(ParseError::SyntaxError);
            },
        }
        Ok(())
    }

    /// Moves the entity at hand into the configuration.
    pub fn close(&mut self, entity: Entity)
        ensures
            final(self)@ == old(self)@.close_entity(entity),
    {
        let id = match self.current_id {
            Some(id) => id,
            None => UNINITIALIZED_ID_VALUE,
        };
        match entity {
            Entity::Category => {
                let category = MetaProperty { id, name: self.current_name.clone() };
                let ghost before = self.config.categories.deep_view();
                self.config.categories.push(category);
                assert(self.config.categories.deep_view() =~= before.push(category@));
            },
            Entity::Client => {
                let client = MetaProperty { id, name: self.current_name.clone() };
                let ghost before = self.config.clients.deep_view();
                self.config.clients.push(client);
                assert(self.config.clients.deep_view() =~= before.push(client@));
                self.current_name = String::new();
            },
            Entity::Account => {
                let account = Account {
                    id,
                    name: self.current_name.clone(),
                    client_id: match self.current_client_id {
                        Some(id) => id,
                        None => UNINITIALIZED_ID_VALUE,
                    },
                    category_id: match self.current_category_id {
                        Some(id) => id,
                        None => UNINITIALIZED_ID_VALUE,
                    },
                    login: self.current_login.clone(),
                };
                let ghost before = self.config.accounts.deep_view();
                self.config.accounts.push(account);
                assert(self.config.accounts.deep_view() =~= before.push(account@));
                self.current_name = String::new();
                self.current_login = String::new();
                self.current_client_id = None;
                self.current_category_id = None;
            },
        }
        self.current_id = None;
        self.awaited = None;
    }

    /// Ends the document: the configuration read so far, unless an element
    /// is still open.
    pub fn finish(self) -> (outcome: Result<XmlConfig, ParseError>)
        ensures
            outcome_view(outcome) == self@.finished(),
    {
        if self.open_elements == 0 {
            Ok(self.config)
        } else {
            Err(ParseError::SyntaxError)
        }
    }
}

/// Builds the configuration from readings that have been taken already.
pub fn manifest_from_readings(readings: &Vec<Reading>) -> (outcome: Result<XmlConfig, ParseError>)
    ensures
        outcome_view(outcome) == manifest_of(readings.deep_view()),
{
    let mut draft = ManifestDraft::new();
    let mut i: usize = 0;
    assert(readings.deep_view().skip(0) =~= readings.deep_view());
    while i < readings.len()
        invariant
            i <= readings.len(),
            readings.deep_view().len() == readings.len(),
            manifest_of(readings.deep_view()) == draft@.scan(readings.deep_view().skip(i as int)),
        decreases readings.len() - i,
    {
        let ghost ahead = readings.deep_view().skip(i as int);
        assert(ahead[0] == readings[i as int]@);
        assert(ahead.drop_first() =~= readings.deep_view().skip(i + 1));
        if let Reading::Eof = readings[i] {
            return draft.finish();
        }
        match draft.accept(&readings[i]) {
            Ok(()) => {},
            Err(e) => {
                return Err(e);
            },
        }
        i = i + 1;
    }
    draft.finish()
}

/// Reads a manifest: the categories, clients and accounts that the document
/// declares, in its order, or the first error met. A document that ends
/// while one of its elements is open is in error.
pub fn get_xml_config_from_str(document: &str) -> (outcome: Result<XmlConfig, ParseError>)
    ensures
        outcome_view(outcome) == manifest_of(readings(document@)),
{
    let mut reader = open_reader(document);
    let mut draft = ManifestDraft::new();
    loop
        invariant
            manifest_of(readings(document@)) == draft@.scan(unread(reader)),
            !ended(taken(reader)),
            draft@.awaited is Some <==> awaits_text(taken(reader)),
            draft@.awaited matches Some(field) ==> field.tag_view() == taken(
                reader,
            ).last()->Open_name,
        decreases unread(reader).len(),
    {
        let reading = match draft.awaited {
            Some(field) => read_text(&mut reader, field.tag()),
            None => read_event(&mut reader),
        };
        if let Reading::Eof = reading {
            return draft.finish();
        }
        proof {
            if let ReadingView::Open { name, .. } = reading@ {
                lemma_tag_kinds(name);
            }
        }
        match draft.accept(&reading) {
            Ok(()) => {},
            Err(e) => {
                return Err(e);
            },
        }
    }
}

} // verus!
