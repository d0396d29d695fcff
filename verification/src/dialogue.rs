use vstd::prelude::*;
use vstd::string::*;
use crate::text::same_text;

verus! {

/// One answer the player can give.
#[derive(Debug)]
pub struct DialogueChoice {
    pub text: String,
    pub next_node: Option<String>,
    pub action: DialogueAction,
}

/// What an answer makes happen.
#[derive(Debug)]
pub enum DialogueAction {
    NoAction,
    StartQuest(String),
    GiveItem(String),
    GiveGold(i32),
    GiveExp(i32),
    Trade,
    Heal,
    EndDialogue,
    Axii(String),
}

pub enum ActionView {
    NoAction,
    StartQuest(Seq<char>),
    GiveItem(Seq<char>),
    GiveGold(i32),
    GiveExp(i32),
    Trade,
    Heal,
    EndDialogue,
    Axii(Seq<char>),
}

impl View for DialogueAction {
    type V = ActionView;

    open spec fn view(&self) -> ActionView {
        match self {
            DialogueAction::NoAction => ActionView::NoAction,
            DialogueAction::StartQuest(s) => ActionView::StartQuest(s@),
            DialogueAction::GiveItem(s) => ActionView::GiveItem(s@),
            DialogueAction::GiveGold(n) => ActionView::GiveGold(*n),
            DialogueAction::GiveExp(n) => ActionView::GiveExp(*n),
            DialogueAction::Trade => ActionView::Trade,
            DialogueAction::Heal => ActionView::Heal,
            DialogueAction::EndDialogue => ActionView::EndDialogue,
            DialogueAction::Axii(s) => ActionView::Axii(s@),
        }
    }
}

impl Clone for DialogueAction {
    fn clone(&self) -> (r: DialogueAction)
        ensures
            r == *self,
    {
        match self {
            DialogueAction::NoAction => DialogueAction::NoAction,
            DialogueAction::StartQuest(s) => DialogueAction::StartQuest(s.clone()),
            DialogueAction::GiveItem(s) => DialogueAction::GiveItem(s.clone()),
            DialogueAction::GiveGold(n) => DialogueAction::GiveGold(*n),
            DialogueAction::GiveExp(n) => DialogueAction::GiveExp(*n),
            DialogueAction::Trade => DialogueAction::Trade,
            DialogueAction::Heal => DialogueAction::Heal,
            DialogueAction::EndDialogue => DialogueAction::EndDialogue,
            DialogueAction::Axii(s) => DialogueAction::Axii(s.clone()),
        }
    }
}

pub struct ChoiceView {
    pub text: Seq<char>,
    pub next_node: Option<Seq<char>>,
    pub action: ActionView,
}

pub open spec fn opt_text(o: Option<String>) -> Option<Seq<char>> {
    match o {
        Some(s) => Some(s@),
        None => None,
    }
}

impl View for DialogueChoice {
    type V = ChoiceView;

    open spec fn view(&self) -> ChoiceView {
        ChoiceView { text: self.text@, next_node: opt_text(self.next_node), action: self.action@ }
    }
}

/// One thing an NPC says, with the answers to it.
#[derive(Debug)]
pub struct DialogueNode {
    pub id: String,
    pub speaker: String,
    pub text: String,
    pub choices: Vec<DialogueChoice>,
}

/// A conversation: its nodes and the node being shown, if any.
#[derive(Debug)]
pub struct Dialogue {
    pub nodes: Vec<DialogueNode>,
    pub current_node: Option<String>,
}

/// Position of the first node with the given id, or the number of nodes when there is none.
pub open spec fn node_index(nodes: Seq<DialogueNode>, id: Seq<char>, from: int) -> int
    decreases nodes.len() - from,
{
    if from >= nodes.len() || from < 0 {
        nodes.len() as int
    } else if nodes[from].id@ == id {
        from
    } else {
        node_index(nodes, id, from + 1)
    }
}

pub proof fn lemma_node_index(nodes: Seq<DialogueNode>, id: Seq<char>, from: int)
    requires
        0 <= from <= nodes.len(),
    ensures
        from <= node_index(nodes, id, from) <= nodes.len(),
        forall|k: int| from <= k < node_index(nodes, id, from) ==> nodes[k].id@ != id,
        node_index(nodes, id, from) < nodes.len() ==> nodes[node_index(nodes, id, from)].id@ == id,
    decreases nodes.len() - from,
{
    if from < nodes.len() && nodes[from].id@ != id {
        lemma_node_index(nodes, id, from + 1);
    }
}

/// Position of the node being shown, if it exists.
pub open spec fn current_index(d: Dialogue) -> Option<int> {
    match d.current_node {
        Some(id) => if node_index(d.nodes@, id@, 0) < d.nodes@.len() { Some(node_index(d.nodes@, id@, 0)) } else { None },
        None => None,
    }
}

/// The conversation after `select_choice(i)`: when the current node exists and has
/// answer `i`, it moves to that answer's next node; otherwise nothing changes.
pub open spec fn next_dialogue(d0: Dialogue, i: int) -> Dialogue {
    match current_index(d0) {
        Some(n) => if 0 <= i < d0.nodes@[n].choices@.len() {
            Dialogue { current_node: d0.nodes@[n].choices@[i].next_node, ..d0 }
        } else {
            d0
        },
        None => d0,
    }
}

/// What `select_choice(i)` returns: the chosen answer's action, if the answer exists.
pub open spec fn chosen_action(d0: Dialogue, i: int) -> Option<DialogueAction> {
    match current_index(d0) {
        Some(n) => if 0 <= i < d0.nodes@[n].choices@.len() { Some(d0.nodes@[n].choices@[i].action) } else { None },
        None => None,
    }
}

fn clone_opt(o: &Option<String>) -> (r: Option<String>)
    ensures
        r == *o,
{
    match o {
        Some(s) => Some(s.clone()),
        None => None,
    }
}

impl Dialogue {
    /// The first node whose id is the current one.
    pub fn get_current_node(&self) -> (r: Option<&DialogueNode>)
        ensures
            r == (match current_index(*self) {
                Some(n) => Some(&self.nodes@[n]),
                None => None,
            }),
    {
        match &self.current_node {
            Some(id) => {
                let mut j: usize = 0;
                while j < self.nodes.len()
                    invariant
                        j <= self.nodes@.len(),
                        self.current_node == Some(*id),
                        forall|k: int| 0 <= k < j ==> self.nodes@[k].id@ != id@,
                    decreases self.nodes.len() - j,
                {
                    if self.nodes[j].id == *id {
                        proof {
                            lemma_node_index(self.nodes@, id@, 0);
                        }
                        return Some(&self.nodes[j]);
                    }
                    j = j + 1;
                }
                proof {
                    lemma_node_index(self.nodes@, id@, 0);
                }
                None
            },
            None => None,
        }
    }

    /// Shows the first node, if there is one.
    pub fn start(&mut self)
        ensures
            final(self).nodes@ == old(self).nodes@,
            final(self).current_node == (if old(self).nodes@.len() > 0 {
                Some(old(self).nodes@[0].id)
            } else {
                old(self).current_node
            }),
    {
        if self.nodes.len() > 0 {
            self.current_node = Some(self.nodes[0].id.clone());
        }
    }

    /// Picks answer `choice_index` of the current node (see `next_dialogue`) and returns its action.
    pub fn select_choice(&mut self, choice_index: usize) -> (r: Option<DialogueAction>)
        ensures
            *final(self) == next_dialogue(*old(self), choice_index as int),
            r == chosen_action(*old(self), choice_index as int),
    {
        let (next, action) = match self.get_current_node() {
            Some(node) => {
                if choice_index >= node.choices.len() {
                    return None;
                }
                let choice = &node.choices[choice_index];
                (clone_opt(&choice.next_node), choice.action.clone())
            },
            None => {
                return None;
            },
        };
        self.current_node = next;
        Some(action)
    }
}

/// The conversation of `soltys`.
pub open spec fn is_soltys_dialogue(d: Dialogue) -> bool {
    &&& d.current_node is None
    &&& d.nodes@.len() == 4
    &&& d.nodes@[0].id@ == "start"@
    &&& d.nodes@[0].speaker@ == "Sołtys Bogdan"@
    &&& d.nodes@[0].text@ == "Witaj, wiedźminie! Gerard z Rumii, prawda? Szkoła Dzika... dawno nie widziałem jednego z was.\nMamy tu problemy z potworami. Utopce na bagnach i coś gorszego w lesie..."@
    &&& d.nodes@[0].choices@.len() == 3
    &&& d.nodes@[0].choices@[0]@ == (ChoiceView { text: "Opowiedz mi o problemach z potworami."@, next_node: Some("quests"@), action: ActionView::NoAction })
    &&& d.nodes@[0].choices@[1]@ == (ChoiceView { text: "Szukam informacji o Szkole Dzika."@, next_node: Some("school"@), action: ActionView::StartQuest("main_school"@) })
    &&& d.nodes@[0].choices@[2]@ == (ChoiceView { text: "Do widzenia."@, next_node: None::<Seq<char>>, action: ActionView::EndDialogue })
    &&& d.nodes@[1].id@ == "quests"@
    &&& d.nodes@[1].speaker@ == "Sołtys Bogdan"@
    &&& d.nodes@[1].text@ == "Utopce nękają ludzi nad bagnem - nikt nie może iść po wodę. Dam ci 100 koron za oczyszczenie bagien.\nA w lesie endriagi zaatakowały drwali - porozmawiaj z Zielarką Bożeną o tym."@
    &&& d.nodes@[1].choices@.len() == 3
    &&& d.nodes@[1].choices@[0]@ == (ChoiceView { text: "Zajmę się utopocami. (Przyjmij kontrakt)"@, next_node: Some("accepted"@), action: ActionView::StartQuest("contract_drowners"@) })
    &&& d.nodes@[1].choices@[1]@ == (ChoiceView { text: "A co ze Szkołą Dzika?"@, next_node: Some("school"@), action: ActionView::NoAction })
    &&& d.nodes@[1].choices@[2]@ == (ChoiceView { text: "Może później."@, next_node: None::<Seq<char>>, action: ActionView::EndDialogue })
    &&& d.nodes@[2].id@ == "school"@
    &&& d.nodes@[2].speaker@ == "Sołtys Bogdan"@
    &&& d.nodes@[2].text@ == "Szkoła Dzika? Słyszałem, że stary wiedźmin Vesimir przebywa w zamku na wschodzie.\nOn może wiedzieć coś o zaginionych sekretach waszej szkoły.\nAle droga jest niebezpieczna - las pełen potworów."@
    &&& d.nodes@[2].choices@.len() == 2
    &&& d.nodes@[2].choices@[0]@ == (ChoiceView { text: "Dziękuję za informację. Wyruszę do zamku."@, next_node: None::<Seq<char>>, action: ActionView::EndDialogue })
    &&& d.nodes@[2].choices@[1]@ == (ChoiceView { text: "A co z kontraktem na utopce?"@, next_node: Some("quests"@), action: ActionView::NoAction })
    &&& d.nodes@[3].id@ == "accepted"@
    &&& d.nodes@[3].speaker@ == "Sołtys Bogdan"@
    &&& d.nodes@[3].text@ == "Doskonale! Bagno jest na południe od wioski. Uważaj na siebie, wiedźminie.\nOlej na nieumarłych może się przydać - Zielarka Bożena pewnie go ma."@
    &&& d.nodes@[3].choices@.len() == 1
    &&& d.nodes@[3].choices@[0]@ == (ChoiceView { text: "Ruszam natychmiast."@, next_node: None::<Seq<char>>, action: ActionView::EndDialogue })
}

/// The conversation of `handlarz`.
pub open spec fn is_handlarz_dialogue(d: Dialogue) -> bool {
    &&& d.current_node is None
    &&& d.nodes@.len() == 1
    &&& d.nodes@[0].id@ == "start"@
    &&& d.nodes@[0].speaker@ == "Handlarz Mirek"@
    &&& d.nodes@[0].text@ == "Witam, witam! Mirek, handlarz z Rumii. Co mogę zaoferować wiedźminowi?\nMam miecze, zbroje, eliksiry - wszystko czego dusza zapragnie!"@
    &&& d.nodes@[0].choices@.len() == 2
    &&& d.nodes@[0].choices@[0]@ == (ChoiceView { text: "Pokaż mi swój towar. (Handel)"@, next_node: None::<Seq<char>>, action: ActionView::Trade })
    &&& d.nodes@[0].choices@[1]@ == (ChoiceView { text: "Może później."@, next_node: None::<Seq<char>>, action: ActionView::EndDialogue })
}

/// The conversation of `zielarka`.
pub open spec fn is_zielarka_dialogue(d: Dialogue) -> bool {
    &&& d.current_node is None
    &&& d.nodes@.len() == 4
    &&& d.nodes@[0].id@ == "start"@
    &&& d.nodes@[0].speaker@ == "Zielarka Bożena"@
    &&& d.nodes@[0].text@ == "A, wiedźmin! Dobrze, że jesteś. Endriagi rozpleniły się w lesie.\nDrwale boją się tam wchodzić. Pomożesz?"@
    &&& d.nodes@[0].choices@.len() == 4
    &&& d.nodes@[0].choices@[0]@ == (ChoiceView { text: "Zajmę się endriagami. (Przyjmij kontrakt)"@, next_node: Some("accepted"@), action: ActionView::StartQuest("contract_endriaga"@) })
    &&& d.nodes@[0].choices@[1]@ == (ChoiceView { text: "Masz jakieś eliksiry na sprzedaż?"@, next_node: Some("trade"@), action: ActionView::NoAction })
    &&& d.nodes@[0].choices@[2]@ == (ChoiceView { text: "Mogę cię uleczyć za darmo. [Axii]"@, next_node: Some("axii_success"@), action: ActionView::Axii("axii_success"@) })
    &&& d.nodes@[0].choices@[3]@ == (ChoiceView { text: "Do widzenia."@, next_node: None::<Seq<char>>, action: ActionView::EndDialogue })
    &&& d.nodes@[1].id@ == "accepted"@
    &&& d.nodes@[1].speaker@ == "Zielarka Bożena"@
    &&& d.nodes@[1].text@ == "Dzięki ci, wiedźminie! Weź ten eliksir na drogę. Endriagi są wrażliwe na ogień - Igni będzie skuteczne.\nOlej na insektoidy też pomoże."@
    &&& d.nodes@[1].choices@.len() == 1
    &&& d.nodes@[1].choices@[0]@ == (ChoiceView { text: "Dziękuję. (Otrzymujesz eliksir Jaskółki)"@, next_node: None::<Seq<char>>, action: ActionView::GiveItem("Jaskółka"@) })
    &&& d.nodes@[2].id@ == "trade"@
    &&& d.nodes@[2].speaker@ == "Zielarka Bożena"@
    &&& d.nodes@[2].text@ == "Mam sporo ziół i eliksirów. Mogę też kupić składniki alchemiczne."@
    &&& d.nodes@[2].choices@.len() == 2
    &&& d.nodes@[2].choices@[0]@ == (ChoiceView { text: "Pokaż towar. (Handel)"@, next_node: None::<Seq<char>>, action: ActionView::Trade })
    &&& d.nodes@[2].choices@[1]@ == (ChoiceView { text: "Wracam do innych spraw."@, next_node: Some("start"@), action: ActionView::NoAction })
    &&& d.nodes@[3].id@ == "axii_success"@
    &&& d.nodes@[3].speaker@ == "Zielarka Bożena"@
    &&& d.nodes@[3].text@ == "Tak... masz rację... weź ten eliksir za darmo... *oszołomiona*"@
    &&& d.nodes@[3].choices@.len() == 1
    &&& d.nodes@[3].choices@[0]@ == (ChoiceView { text: "Dziękuję. (Otrzymujesz eliksir Kota)"@, next_node: None::<Seq<char>>, action: ActionView::GiveItem("Kot"@) })
}

/// The conversation of `vesimir`.
pub open spec fn is_vesimir_dialogue(d: Dialogue) -> bool {
    &&& d.current_node is None
    &&& d.nodes@.len() == 3
    &&& d.nodes@[0].id@ == "start"@
    &&& d.nodes@[0].speaker@ == "Stary Wiedźmin Vesimir"@
    &&& d.nodes@[0].text@ == "Gerard... z Rumii? Ze Szkoły Dzika? Dawno nie słyszałem tej nazwy.\nSzkoła Dzika zaginęła wieki temu. Ale zachowały się zapiski..."@
    &&& d.nodes@[0].choices@.len() == 3
    &&& d.nodes@[0].choices@[0]@ == (ChoiceView { text: "Opowiedz mi o Szkole Dzika."@, next_node: Some("school_info"@), action: ActionView::NoAction })
    &&& d.nodes@[0].choices@[1]@ == (ChoiceView { text: "Potrzebuję pomocy w walce z potworami."@, next_node: Some("help"@), action: ActionView::NoAction })
    &&& d.nodes@[0].choices@[2]@ == (ChoiceView { text: "Do widzenia, Vesimir."@, next_node: None::<Seq<char>>, action: ActionView::EndDialogue })
    &&& d.nodes@[1].id@ == "school_info"@
    &&& d.nodes@[1].speaker@ == "Stary Wiedźmin Vesimir"@
    &&& d.nodes@[1].text@ == "Szkoła Dzika była znana z niekonwencjonalnych metod. Łączyła techniki wielu szkół.\nIch siedziba była gdzieś na północy. Ostatni mistrz zostawił legendarne ostrze...\nAle to wiedza, którą musisz zdobyć sam, wiedźminie. Zasłużyłeś na nią."@
    &&& d.nodes@[1].choices@.len() == 1
    &&& d.nodes@[1].choices@[0]@ == (ChoiceView { text: "Dziękuję za wiedzę, Vesimir. (Quest główny ukończony!)"@, next_node: None::<Seq<char>>, action: ActionView::GiveExp(500i32) })
    &&& d.nodes@[2].id@ == "help"@
    &&& d.nodes@[2].speaker@ == "Stary Wiedźmin Vesimir"@
    &&& d.nodes@[2].text@ == "Odpocznij tu, wiedźminie. Wyleczę twoje rany i naostrzę miecze.\nPamiętaj - każdy potwór ma słabość. Oleje, znaki, bomby - to twoje narzędzia."@
    &&& d.nodes@[2].choices@.len() == 1
    &&& d.nodes@[2].choices@[0]@ == (ChoiceView { text: "Dziękuję. (Pełne leczenie)"@, next_node: None::<Seq<char>>, action: ActionView::Heal })
}

/// The conversation of `elf`.
pub open spec fn is_elf_dialogue(d: Dialogue) -> bool {
    &&& d.current_node is None
    &&& d.nodes@.len() == 3
    &&& d.nodes@[0].id@ == "start"@
    &&& d.nodes@[0].speaker@ == "Tajemniczy Elf"@
    &&& d.nodes@[0].text@ == "Dh'oine... wiedźmin. Rzadki gość w tych lasach.\nWiem, czego szukasz. Szkoła Dzika... tak, pamiętam ją z dawnych czasów."@
    &&& d.nodes@[0].choices@.len() == 3
    &&& d.nodes@[0].choices@[0]@ == (ChoiceView { text: "Co wiesz o Szkole Dzika?"@, next_node: Some("info"@), action: ActionView::NoAction })
    &&& d.nodes@[0].choices@[1]@ == (ChoiceView { text: "Leszy grasuje w lesie. Wiesz coś o nim?"@, next_node: Some("leshen"@), action: ActionView::StartQuest("contract_leshen"@) })
    &&& d.nodes@[0].choices@[2]@ == (ChoiceView { text: "Do widzenia."@, next_node: None::<Seq<char>>, action: ActionView::EndDialogue })
    &&& d.nodes@[1].id@ == "info"@
    &&& d.nodes@[1].speaker@ == "Tajemniczy Elf"@
    &&& d.nodes@[1].text@ == "Szkoła Dzika była bliska elfom. Uczyli się od nas magii natury.\nMusisz iść do zamku na wschodzie. Vesimir posiada klucz do ich tajemnic.\nAle uważaj - w jaskini czai się wilkołak. Pokonaj go, a udowodnisz swoją wartość."@
    &&& d.nodes@[1].choices@.len() == 1
    &&& d.nodes@[1].choices@[0]@ == (ChoiceView { text: "Dziękuję za pomoc."@, next_node: None::<Seq<char>>, action: ActionView::GiveExp(50i32) })
    &&& d.nodes@[2].id@ == "leshen"@
    &&& d.nodes@[2].speaker@ == "Tajemniczy Elf"@
    &&& d.nodes@[2].text@ == "Leszy... starożytna istota. Strzeże tego lasu od wieków.\nJest potężny, ale wrażliwy na ogień. Igni i olej na relikty - to twoja szansa.\nUważaj na jego korzenie i wilki, które przywołuje."@
    &&& d.nodes@[2].choices@.len() == 1
    &&& d.nodes@[2].choices@[0]@ == (ChoiceView { text: "Przyjmę wyzwanie."@, next_node: None::<Seq<char>>, action: ActionView::EndDialogue })
}

/// The conversation of `default`.
pub open spec fn is_default_dialogue(d: Dialogue) -> bool {
    &&& d.current_node is None
    &&& d.nodes@.len() == 1
    &&& d.nodes@[0].id@ == "start"@
    &&& d.nodes@[0].speaker@ == "Nieznajomy"@
    &&& d.nodes@[0].text@ == "Nie mam nic do powiedzenia."@
    &&& d.nodes@[0].choices@.len() == 1
    &&& d.nodes@[0].choices@[0]@ == (ChoiceView { text: "Do widzenia."@, next_node: None::<Seq<char>>, action: ActionView::EndDialogue })
}

fn choice(text: &str, next_node: Option<String>, action: DialogueAction) -> (c: DialogueChoice)
    ensures
        c.text@ == text@,
        c.next_node == next_node,
        c.action == action,
{
    DialogueChoice { text: String::from_str(text), next_node, action }
}

fn dialogue_node(id: &str, speaker: &str, text: &str, choices: Vec<DialogueChoice>) -> (n: DialogueNode)
    ensures
        n.id@ == id@,
        n.speaker@ == speaker@,
        n.text@ == text@,
        n.choices@ == choices@,
{
    DialogueNode { id: String::from_str(id), speaker: String::from_str(speaker), text: String::from_str(text), choices }
}

fn soltys_dialogue() -> (d: Dialogue)
    ensures
        is_soltys_dialogue(d),
{
    let mut nodes: Vec<DialogueNode> = Vec::new();
    let mut choices: Vec<DialogueChoice> = Vec::new();
    choices.push(choice("Opowiedz mi o problemach z potworami.", Some(String::from_str("quests")), DialogueAction::NoAction));
    choices.push(choice("Szukam informacji o Szkole Dzika.", Some(String::from_str("school")), DialogueAction::StartQuest(String::from_str("main_school"))));
    choices.push(choice("Do widzenia.", None, DialogueAction::EndDialogue));
    let ghost cv = choices@;
    let node = dialogue_node("start", "Sołtys Bogdan", "Witaj, wiedźminie! Gerard z Rumii, prawda? Szkoła Dzika... dawno nie widziałem jednego z was.\nMamy tu problemy z potworami. Utopce na bagnach i coś gorszego w lesie...", choices);
    assert(node.choices@ == cv);
    nodes.push(node);
    let mut choices: Vec<DialogueChoice> = Vec::new();
    choices.push(choice("Zajmę się utopocami. (Przyjmij kontrakt)", Some(String::from_str("accepted")), DialogueAction::StartQuest(String::from_str("contract_drowners"))));
    choices.push(choice("A co ze Szkołą Dzika?", Some(String::from_str("school")), DialogueAction::NoAction));
    choices.push(choice("Może później.", None, DialogueAction::EndDialogue));
    let ghost cv = choices@;
    let node = dialogue_node("quests", "Sołtys Bogdan", "Utopce nękają ludzi nad bagnem - nikt nie może iść po wodę. Dam ci 100 koron za oczyszczenie bagien.\nA w lesie endriagi zaatakowały drwali - porozmawiaj z Zielarką Bożeną o tym.", choices);
    assert(node.choices@ == cv);
    nodes.push(node);
    let mut choices: Vec<DialogueChoice> = Vec::new();
    choices.push(choice("Dziękuję za informację. Wyruszę do zamku.", None, DialogueAction::EndDialogue));
    choices.push(choice("A co z kontraktem na utopce?", Some(String::from_str("quests")), DialogueAction::NoAction));
    let ghost cv = choices@;
    let node = dialogue_node("school", "Sołtys Bogdan", "Szkoła Dzika? Słyszałem, że stary wiedźmin Vesimir przebywa w zamku na wschodzie.\nOn może wiedzieć coś o zaginionych sekretach waszej szkoły.\nAle droga jest niebezpieczna - las pełen potworów.", choices);
    assert(node.choices@ == cv);
    nodes.push(node);
    let mut choices: Vec<DialogueChoice> = Vec::new();
    choices.push(choice("Ruszam natychmiast.", None, DialogueAction::EndDialogue));
    let ghost cv = choices@;
    let node = dialogue_node("accepted", "Sołtys Bogdan", "Doskonale! Bagno jest na południe od wioski. Uważaj na siebie, wiedźminie.\nOlej na nieumarłych może się przydać - Zielarka Bożena pewnie go ma.", choices);
    assert(node.choices@ == cv);
    nodes.push(node);
    Dialogue { nodes, current_node: None }
}

fn handlarz_dialogue() -> (d: Dialogue)
    ensures
        is_handlarz_dialogue(d),
{
    let mut nodes: Vec<DialogueNode> = Vec::new();
    let mut choices: Vec<DialogueChoice> = Vec::new();
    choices.push(choice("Pokaż mi swój towar. (Handel)", None, DialogueAction::Trade));
    choices.push(choice("Może później.", None, DialogueAction::EndDialogue));
    let ghost cv = choices@;
    let node = dialogue_node("start", "Handlarz Mirek", "Witam, witam! Mirek, handlarz z Rumii. Co mogę zaoferować wiedźminowi?\nMam miecze, zbroje, eliksiry - wszystko czego dusza zapragnie!", choices);
    assert(node.choices@ == cv);
    nodes.push(node);
    Dialogue { nodes, current_node: None }
}

fn zielarka_dialogue() -> (d: Dialogue)
    ensures
        is_zielarka_dialogue(d),
{
    let mut nodes: Vec<DialogueNode> = Vec::new();
    let mut choices: Vec<DialogueChoice> = Vec::new();
    choices.push(choice("Zajmę się endriagami. (Przyjmij kontrakt)", Some(String::from_str("accepted")), DialogueAction::StartQuest(String::from_str("contract_endriaga"))));
    choices.push(choice("Masz jakieś eliksiry na sprzedaż?", Some(String::from_str("trade")), DialogueAction::NoAction));
    choices.push(choice("Mogę cię uleczyć za darmo. [Axii]", Some(String::from_str("axii_success")), DialogueAction::Axii(String::from_str("axii_success"))));
    choices.push(choice("Do widzenia.", None, DialogueAction::EndDialogue));
    let ghost cv = choices@;
    let node = dialogue_node("start", "Zielarka Bożena", "A, wiedźmin! Dobrze, że jesteś. Endriagi rozpleniły się w lesie.\nDrwale boją się tam wchodzić. Pomożesz?", choices);
    assert(node.choices@ == cv);
    nodes.push(node);
    let mut choices: Vec<DialogueChoice> = Vec::new();
    choices.push(choice("Dziękuję. (Otrzymujesz eliksir Jaskółki)", None, DialogueAction::GiveItem(String::from_str("Jaskółka"))));
    let ghost cv = choices@;
    let node = dialogue_node("accepted", "Zielarka Bożena", "Dzięki ci, wiedźminie! Weź ten eliksir na drogę. Endriagi są wrażliwe na ogień - Igni będzie skuteczne.\nOlej na insektoidy też pomoże.", choices);
    assert(node.choices@ == cv);
    nodes.push(node);
    let mut choices: Vec<DialogueChoice> = Vec::new();
    choices.push(choice("Pokaż towar. (Handel)", None, DialogueAction::Trade));
    choices.push(choice("Wracam do innych spraw.", Some(String::from_str("start")), DialogueAction::NoAction));
    let ghost cv = choices@;
    let node = dialogue_node("trade", "Zielarka Bożena", "Mam sporo ziół i eliksirów. Mogę też kupić składniki alchemiczne.", choices);
    assert(node.choices@ == cv);
    nodes.push(node);
    let mut choices: Vec<DialogueChoice> = Vec::new();
    choices.push(choice("Dziękuję. (Otrzymujesz eliksir Kota)", None, DialogueAction::GiveItem(String::from_str("Kot"))));
    let ghost cv = choices@;
    let node = dialogue_node("axii_success", "Zielarka Bożena", "Tak... masz rację... weź ten eliksir za darmo... *oszołomiona*", choices);
    assert(node.choices@ == cv);
    nodes.push(node);
    Dialogue { nodes, current_node: None }
}

fn vesimir_dialogue() -> (d: Dialogue)
    ensures
        is_vesimir_dialogue(d),
{
    let mut nodes: Vec<DialogueNode> = Vec::new();
    let mut choices: Vec<DialogueChoice> = Vec::new();
    choices.push(choice("Opowiedz mi o Szkole Dzika.", Some(String::from_str("school_info")), DialogueAction::NoAction));
    choices.push(choice("Potrzebuję pomocy w walce z potworami.", Some(String::from_str("help")), DialogueAction::NoAction));
    choices.push(choice("Do widzenia, Vesimir.", None, DialogueAction::EndDialogue));
    let ghost cv = choices@;
    let node = dialogue_node("start", "Stary Wiedźmin Vesimir", "Gerard... z Rumii? Ze Szkoły Dzika? Dawno nie słyszałem tej nazwy.\nSzkoła Dzika zaginęła wieki temu. Ale zachowały się zapiski...", choices);
    assert(node.choices@ == cv);
    nodes.push(node);
    let mut choices: Vec<DialogueChoice> = Vec::new();
    choices.push(choice("Dziękuję za wiedzę, Vesimir. (Quest główny ukończony!)", None, DialogueAction::GiveExp(500)));
    let ghost cv = choices@;
    let node = dialogue_node("school_info", "Stary Wiedźmin Vesimir", "Szkoła Dzika była znana z niekonwencjonalnych metod. Łączyła techniki wielu szkół.\nIch siedziba była gdzieś na północy. Ostatni mistrz zostawił legendarne ostrze...\nAle to wiedza, którą musisz zdobyć sam, wiedźminie. Zasłużyłeś na nią.", choices);
    assert(node.choices@ == cv);
    nodes.push(node);
    let mut choices: Vec<DialogueChoice> = Vec::new();
    choices.push(choice("Dziękuję. (Pełne leczenie)", None, DialogueAction::Heal));
    let ghost cv = choices@;
    let node = dialogue_node("help", "Stary Wiedźmin Vesimir", "Odpocznij tu, wiedźminie. Wyleczę twoje rany i naostrzę miecze.\nPamiętaj - każdy potwór ma słabość. Oleje, znaki, bomby - to twoje narzędzia.", choices);
    assert(node.choices@ == cv);
    nodes.push(node);
    Dialogue { nodes, current_node: None }
}

fn elf_dialogue() -> (d: Dialogue)
    ensures
        is_elf_dialogue(d),
{
    let mut nodes: Vec<DialogueNode> = Vec::new();
    let mut choices: Vec<DialogueChoice> = Vec::new();
    choices.push(choice("Co wiesz o Szkole Dzika?", Some(String::from_str("info")), DialogueAction::NoAction));
    choices.push(choice("Leszy grasuje w lesie. Wiesz coś o nim?", Some(String::from_str("leshen")), DialogueAction::StartQuest(String::from_str("contract_leshen"))));
    choices.push(choice("Do widzenia.", None, DialogueAction::EndDialogue));
    let ghost cv = choices@;
    let node = dialogue_node("start", "Tajemniczy Elf", "Dh'oine... wiedźmin. Rzadki gość w tych lasach.\nWiem, czego szukasz. Szkoła Dzika... tak, pamiętam ją z dawnych czasów.", choices);
    assert(node.choices@ == cv);
    nodes.push(node);
    let mut choices: Vec<DialogueChoice> = Vec::new();
    choices.push(choice("Dziękuję za pomoc.", None, DialogueAction::GiveExp(50)));
    let ghost cv = choices@;
    let node = dialogue_node("info", "Tajemniczy Elf", "Szkoła Dzika była bliska elfom. Uczyli się od nas magii natury.\nMusisz iść do zamku na wschodzie. Vesimir posiada klucz do ich tajemnic.\nAle uważaj - w jaskini czai się wilkołak. Pokonaj go, a udowodnisz swoją wartość.", choices);
    assert(node.choices@ == cv);
    nodes.push(node);
    let mut choices: Vec<DialogueChoice> = Vec::new();
    choices.push(choice("Przyjmę wyzwanie.", None, DialogueAction::EndDialogue));
    let ghost cv = choices@;
    let node = dialogue_node("leshen", "Tajemniczy Elf", "Leszy... starożytna istota. Strzeże tego lasu od wieków.\nJest potężny, ale wrażliwy na ogień. Igni i olej na relikty - to twoja szansa.\nUważaj na jego korzenie i wilki, które przywołuje.", choices);
    assert(node.choices@ == cv);
    nodes.push(node);
    Dialogue { nodes, current_node: None }
}

fn default_dialogue() -> (d: Dialogue)
    ensures
        is_default_dialogue(d),
{
    let mut nodes: Vec<DialogueNode> = Vec::new();
    let mut choices: Vec<DialogueChoice> = Vec::new();
    choices.push(choice("Do widzenia.", None, DialogueAction::EndDialogue));
    let ghost cv = choices@;
    let node = dialogue_node("start", "Nieznajomy", "Nie mam nic do powiedzenia.", choices);
    assert(node.choices@ == cv);
    nodes.push(node);
    Dialogue { nodes, current_node: None }
}

/// The conversation of the NPC with the given dialogue id; a stranger's one-line
/// conversation for an unknown id. No node is shown yet.
pub open spec fn is_dialogue_for(d: Dialogue, npc_id: Seq<char>) -> bool {
    if npc_id == "soltys"@ {
        is_soltys_dialogue(d)
    } else if npc_id == "handlarz"@ {
        is_handlarz_dialogue(d)
    } else if npc_id == "zielarka"@ {
        is_zielarka_dialogue(d)
    } else if npc_id == "vesimir"@ {
        is_vesimir_dialogue(d)
    } else if npc_id == "elf"@ {
        is_elf_dialogue(d)
    } else {
        is_default_dialogue(d)
    }
}

/// The conversation of an NPC (see `is_dialogue_for`).
pub fn get_dialogue(npc_id: &str) -> (d: Dialogue)
    ensures
        is_dialogue_for(d, npc_id@),
{
    if same_text(npc_id, "soltys") {
        soltys_dialogue()
    } else if same_text(npc_id, "handlarz") {
        handlarz_dialogue()
    } else if same_text(npc_id, "zielarka") {
        zielarka_dialogue()
    } else if same_text(npc_id, "vesimir") {
        vesimir_dialogue()
    } else if same_text(npc_id, "elf") {
        elf_dialogue()
    } else {
        default_dialogue()
    }
}

} // verus!
