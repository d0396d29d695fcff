use vstd::prelude::*;
use vstd::string::*;
use crate::text::same_text;

verus! {

/// Where a quest stands.
#[derive(Debug, Clone, Copy, PartialEq, Eq, Structural)]
pub enum QuestStatus {
    NotStarted,
    Active,
    Completed,
    Failed,
}

/// What a quest step asks for.
#[derive(Debug)]
pub enum QuestObjective {
    KillMonster(String),
    TalkToNpc(String),
    CollectItem(String, i32),
    GoToLocation(String),
}

pub enum ObjectiveView {
    KillMonster(Seq<char>),
    TalkToNpc(Seq<char>),
    CollectItem(Seq<char>, i32),
    GoToLocation(Seq<char>),
}

impl View for QuestObjective {
    type V = ObjectiveView;

    open spec fn view(&self) -> ObjectiveView {
        match self {
            QuestObjective::KillMonster(n) => ObjectiveView::KillMonster(n@),
            QuestObjective::TalkToNpc(n) => ObjectiveView::TalkToNpc(n@),
            QuestObjective::CollectItem(n, q) => ObjectiveView::CollectItem(n@, *q),
            QuestObjective::GoToLocation(n) => ObjectiveView::GoToLocation(n@),
        }
    }
}

/// One step of a quest.
#[derive(Debug)]
pub struct QuestStep {
    pub description: String,
    pub objective: QuestObjective,
    pub completed: bool,
}

pub struct QuestStepView {
    pub description: Seq<char>,
    pub objective: ObjectiveView,
    pub completed: bool,
}

impl View for QuestStep {
    type V = QuestStepView;

    open spec fn view(&self) -> QuestStepView {
        QuestStepView { description: self.description@, objective: self.objective@, completed: self.completed }
    }
}

/// A quest: its steps are done in order; `current_step` is the next one.
#[derive(Debug)]
pub struct Quest {
    pub id: String,
    pub title: String,
    pub description: String,
    pub status: QuestStatus,
    pub steps: Vec<QuestStep>,
    pub current_step: usize,
    pub experience_reward: i32,
    pub gold_reward: i32,
    pub is_main_quest: bool,
}

/// `q1` is `q0` after `advance_step`: the current step is marked done and the next one
/// becomes current; the quest is completed when no step is left. Past the last step nothing changes.
pub open spec fn advanced(q0: Quest, q1: Quest) -> bool {
    if q0.current_step < q0.steps@.len() {
        let cs = q0.current_step as int;
        &&& q1.steps@ == q0.steps@.update(cs, QuestStep { completed: true, ..q0.steps@[cs] })
        &&& q1 == (Quest {
            steps: q1.steps,
            current_step: (cs + 1) as usize,
            status: if cs + 1 >= q0.steps@.len() { QuestStatus::Completed } else { q0.status },
            ..q0
        })
    } else {
        q1 == q0
    }
}

/// The objective of the quest's current step, if the quest is active and one is left.
pub open spec fn current_objective_of(q: Quest) -> Option<ObjectiveView> {
    if q.status == QuestStatus::Active && q.current_step < q.steps@.len() {
        Some(q.steps@[q.current_step as int].objective@)
    } else {
        None
    }
}

impl Quest {
    /// The current step, or `None` when every step is done.
    pub fn current_objective(&self) -> (r: Option<&QuestStep>)
        ensures
            r == (if self.current_step < self.steps@.len() { Some(&self.steps@[self.current_step as int]) } else { None }),
    {
        if self.current_step < self.steps.len() {
            Some(&self.steps[self.current_step])
        } else {
            None
        }
    }

    /// Marks the current step done and moves on (see `advanced`); true when that
    /// completed the quest.
    pub fn advance_step(&mut self) -> (done: bool)
        ensures
            advanced(*old(self), *final(self)),
            done == (old(self).current_step < old(self).steps@.len() && old(self).current_step + 1 >= old(self).steps@.len()),
    {
        if self.current_step < self.steps.len() {
            let cs = self.current_step;
            self.steps[cs].completed = true;
            self.current_step = cs + 1;
            if self.current_step >= self.steps.len() {
                self.status = QuestStatus::Completed;
                return true;
            }
        }
        false
    }
}

/// Every quest of the game, and which one the player follows.
#[derive(Debug)]
pub struct QuestLog {
    pub quests: Vec<Quest>,
    pub active_quest_index: Option<usize>,
}

/// The quest that a new quest log holds at position `i` (`0 <= i < 5`).
pub open spec fn is_initial_quest(q: Quest, i: int) -> bool {
    if i == 0 {
        &&& q.id@ == "main_school"@
        &&& q.title@ == "Tajemnica Szkoły Dzika"@
        &&& q.description@ == "Odkryj tajemnicę zaginionej wiedzy Szkoły Dzika. Vesimir w zamku może wiedzieć więcej."@
        &&& q.status == QuestStatus::NotStarted
        &&& q.steps@.len() == 5
        &&& q.current_step == 0
        &&& q.experience_reward == 500
        &&& q.gold_reward == 200
        &&& q.is_main_quest == true
        &&& q.steps@[0]@ == (QuestStepView { description: "Porozmawiaj z Sołtysem Bogdanem w Wiosce Rumia"@, objective: ObjectiveView::TalkToNpc("soltys"@), completed: false })
        &&& q.steps@[1]@ == (QuestStepView { description: "Zabij ghule w Mrocznym Lesie"@, objective: ObjectiveView::KillMonster("Ghul"@), completed: false })
        &&& q.steps@[2]@ == (QuestStepView { description: "Porozmawiaj z Tajemniczym Elfem w lesie"@, objective: ObjectiveView::TalkToNpc("elf"@), completed: false })
        &&& q.steps@[3]@ == (QuestStepView { description: "Pokonaj Wilkołaka w Jaskini"@, objective: ObjectiveView::KillMonster("Wilkołak"@), completed: false })
        &&& q.steps@[4]@ == (QuestStepView { description: "Odwiedź Vesimira w Zamku"@, objective: ObjectiveView::TalkToNpc("vesimir"@), completed: false })
    } else if i == 1 {
        &&& q.id@ == "contract_drowners"@
        &&& q.title@ == "Kontrakt: Utopce na Bagnach"@
        &&& q.description@ == "Sołtys prosi o oczyszczenie bagien z utopców nękających wieśniaków."@
        &&& q.status == QuestStatus::NotStarted
        &&& q.steps@.len() == 3
        &&& q.current_step == 0
        &&& q.experience_reward == 150
        &&& q.gold_reward == 100
        &&& q.is_main_quest == false
        &&& q.steps@[0]@ == (QuestStepView { description: "Porozmawiaj z Sołtysem o kontrakcie"@, objective: ObjectiveView::TalkToNpc("soltys"@), completed: false })
        &&& q.steps@[1]@ == (QuestStepView { description: "Zabij utopce na Bagnach"@, objective: ObjectiveView::KillMonster("Utopiec"@), completed: false })
        &&& q.steps@[2]@ == (QuestStepView { description: "Wróć do Sołtysa po nagrodę"@, objective: ObjectiveView::TalkToNpc("soltys"@), completed: false })
    } else if i == 2 {
        &&& q.id@ == "contract_endriaga"@
        &&& q.title@ == "Kontrakt: Endriagi w Lesie"@
        &&& q.description@ == "Endriagi zaatakowały drwali w lesie. Trzeba je wytępić."@
        &&& q.status == QuestStatus::NotStarted
        &&& q.steps@.len() == 3
        &&& q.current_step == 0
        &&& q.experience_reward == 200
        &&& q.gold_reward == 120
        &&& q.is_main_quest == false
        &&& q.steps@[0]@ == (QuestStepView { description: "Porozmawiaj z Zielarką Bożeną"@, objective: ObjectiveView::TalkToNpc("zielarka"@), completed: false })
        &&& q.steps@[1]@ == (QuestStepView { description: "Zabij endriagi w Mrocznym Lesie"@, objective: ObjectiveView::KillMonster("Endriaga"@), completed: false })
        &&& q.steps@[2]@ == (QuestStepView { description: "Wróć do Zielarki po nagrodę"@, objective: ObjectiveView::TalkToNpc("zielarka"@), completed: false })
    } else if i == 3 {
        &&& q.id@ == "contract_basilisk"@
        &&& q.title@ == "Kontrakt: Bazyliszek w Jaskini"@
        &&& q.description@ == "W jaskini zagnieździł się potężny bazyliszek. To zlecenie nie dla żółtodziobów."@
        &&& q.status == QuestStatus::NotStarted
        &&& q.steps@.len() == 1
        &&& q.current_step == 0
        &&& q.experience_reward == 300
        &&& q.gold_reward == 200
        &&& q.is_main_quest == false
        &&& q.steps@[0]@ == (QuestStepView { description: "Znajdź i zabij Bazyliszka w Jaskini"@, objective: ObjectiveView::KillMonster("Bazyliszek"@), completed: false })
    } else if i == 4 {
        &&& q.id@ == "contract_leshen"@
        &&& q.title@ == "Kontrakt: Leszy - Strażnik Lasu"@
        &&& q.description@ == "Starożytny Leszy terroryzuje okolice. Tylko doświadczony wiedźmin da radę."@
        &&& q.status == QuestStatus::NotStarted
        &&& q.steps@.len() == 2
        &&& q.current_step == 0
        &&& q.experience_reward == 400
        &&& q.gold_reward == 250
        &&& q.is_main_quest == false
        &&& q.steps@[0]@ == (QuestStepView { description: "Porozmawiaj z Elfem o Leszym"@, objective: ObjectiveView::TalkToNpc("elf"@), completed: false })
        &&& q.steps@[1]@ == (QuestStepView { description: "Znajdź i pokonaj Leszego"@, objective: ObjectiveView::KillMonster("Leszy"@), completed: false })
    } else {
        false
    }
}

fn step(description: &str, objective: QuestObjective) -> (s: QuestStep)
    ensures
        s@ == (QuestStepView { description: description@, objective: objective@, completed: false }),
{
    QuestStep { description: String::from_str(description), objective, completed: false }
}

fn new_quest(id: &str, title: &str, description: &str, steps: Vec<QuestStep>, experience_reward: i32,
    gold_reward: i32, is_main_quest: bool) -> (q: Quest)
    ensures
        q.id@ == id@,
        q.title@ == title@,
        q.description@ == description@,
        q.status == QuestStatus::NotStarted,
        q.steps@ == steps@,
        q.current_step == 0,
        q.experience_reward == experience_reward,
        q.gold_reward == gold_reward,
        q.is_main_quest == is_main_quest,
{
    Quest {
        id: String::from_str(id),
        title: String::from_str(title),
        description: String::from_str(description),
        status: QuestStatus::NotStarted,
        steps,
        current_step: 0,
        experience_reward,
        gold_reward,
        is_main_quest,
    }
}

/// The statuses that `start_quest(id)` leaves: a not-yet-started quest with that id becomes active.
pub open spec fn started(q0: Quest, q1: Quest, id: Seq<char>) -> bool {
    q1 == (Quest {
        status: if q0.id@ == id && q0.status == QuestStatus::NotStarted { QuestStatus::Active } else { q0.status },
        ..q0
    })
}

/// Whether the quest at `i` is one that `start_quest(id)` starts.
pub open spec fn starts(qs: Seq<Quest>, i: int, id: Seq<char>) -> bool {
    qs[i].id@ == id && qs[i].status == QuestStatus::NotStarted
}

/// The quests among `qs[..n]` whose status is `st`, in order.
pub open spec fn with_status(qs: Seq<Quest>, n: int, st: QuestStatus) -> Seq<Quest>
    decreases n,
{
    if n <= 0 {
        Seq::empty()
    } else if qs[n - 1].status == st {
        with_status(qs, n - 1, st).push(qs[n - 1])
    } else {
        with_status(qs, n - 1, st)
    }
}

/// Whether the quest's current step asks to kill `name` (or talk to `name`, when `talk`).
pub open spec fn step_matches(q: Quest, name: Seq<char>, talk: bool) -> bool {
    match current_objective_of(q) {
        Some(ObjectiveView::KillMonster(n)) => !talk && n == name,
        Some(ObjectiveView::TalkToNpc(n)) => talk && n == name,
        _ => false,
    }
}

/// `qs1` is `qs0` after a kill of `name` (or a talk with `name`, when `talk`):
/// each active quest whose current step asks for it advances; the rest stay.
pub open spec fn objective_checked(qs0: Seq<Quest>, qs1: Seq<Quest>, name: Seq<char>, talk: bool) -> bool {
    &&& qs1.len() == qs0.len()
    &&& forall|i: int| 0 <= i < qs0.len() ==>
        if step_matches(#[trigger] qs0[i], name, talk) { advanced(qs0[i], qs1[i]) } else { qs1[i] == qs0[i] }
}

/// The quest log of a new game (see `QuestLog::new`).
pub open spec fn is_new_quest_log(log: QuestLog) -> bool {
    &&& log.quests@.len() == 5
    &&& forall|i: int| 0 <= i < 5 ==> is_initial_quest(#[trigger] log.quests@[i], i)
    &&& log.active_quest_index is None
}

/// `l1` is `l0` after `start_quest(id)`: every not-yet-started quest with the id becomes
/// active; when no quest was followed, the first of them becomes the followed one.
pub open spec fn start_result(l0: QuestLog, l1: QuestLog, id: Seq<char>) -> bool {
    &&& l1.quests@.len() == l0.quests@.len()
    &&& forall|i: int| 0 <= i < l0.quests@.len() ==>
            started(#[trigger] l0.quests@[i], l1.quests@[i], id)
    &&& l1.active_quest_index == (if l0.active_quest_index is None
            && exists|i: int| 0 <= i < l0.quests@.len() && starts(l0.quests@, i, id) {
            Some((choose|i: int| 0 <= i < l0.quests@.len() && starts(l0.quests@, i, id)
                && forall|k: int| 0 <= k < i ==> !starts(l0.quests@, k, id)) as usize)
        } else {
            l0.active_quest_index
        })
}

/// `l1` is `l0` after a kill of (or a talk with) `name` was checked against the quests.
pub open spec fn checked_result(l0: QuestLog, l1: QuestLog, name: Seq<char>, talk: bool) -> bool {
    &&& objective_checked(l0.quests@, l1.quests@, name, talk)
    &&& l1.active_quest_index == l0.active_quest_index
}

impl QuestLog {
    /// The game's five quests, none started: the main quest, then the drowner, endriaga,
    /// basilisk and leshen contracts (see `is_initial_quest`).
    pub fn new() -> (log: QuestLog)
        ensures
            is_new_quest_log(log),
    {
        let mut quests: Vec<Quest> = Vec::new();
        let mut steps: Vec<QuestStep> = Vec::new();
        steps.push(step("Porozmawiaj z Sołtysem Bogdanem w Wiosce Rumia", QuestObjective::TalkToNpc(String::from_str("soltys"))));
        steps.push(step("Zabij ghule w Mrocznym Lesie", QuestObjective::KillMonster(String::from_str("Ghul"))));
        steps.push(step("Porozmawiaj z Tajemniczym Elfem w lesie", QuestObjective::TalkToNpc(String::from_str("elf"))));
        steps.push(step("Pokonaj Wilkołaka w Jaskini", QuestObjective::KillMonster(String::from_str("Wilkołak"))));
        steps.push(step("Odwiedź Vesimira w Zamku", QuestObjective::TalkToNpc(String::from_str("vesimir"))));
        let ghost sv = steps@;
        let q = new_quest("main_school", "Tajemnica Szkoły Dzika", "Odkryj tajemnicę zaginionej wiedzy Szkoły Dzika. Vesimir w zamku może wiedzieć więcej.", steps, 500, 200, true);
        assert(is_initial_quest(q, 0)) by {
            assert(q.steps@ == sv);
        }
        quests.push(q);
        let mut steps: Vec<QuestStep> = Vec::new();
        steps.push(step("Porozmawiaj z Sołtysem o kontrakcie", QuestObjective::TalkToNpc(String::from_str("soltys"))));
        steps.push(step("Zabij utopce na Bagnach", QuestObjective::KillMonster(String::from_str("Utopiec"))));
        steps.push(step("Wróć do Sołtysa po nagrodę", QuestObjective::TalkToNpc(String::from_str("soltys"))));
        let ghost sv = steps@;
        let q = new_quest("contract_drowners", "Kontrakt: Utopce na Bagnach", "Sołtys prosi o oczyszczenie bagien z utopców nękających wieśniaków.", steps, 150, 100, false);
        assert(is_initial_quest(q, 1)) by {
            assert(q.steps@ == sv);
        }
        quests.push(q);
        let mut steps: Vec<QuestStep> = Vec::new();
        steps.push(step("Porozmawiaj z Zielarką Bożeną", QuestObjective::TalkToNpc(String::from_str("zielarka"))));
        steps.push(step("Zabij endriagi w Mrocznym Lesie", QuestObjective::KillMonster(String::from_str("Endriaga"))));
        steps.push(step("Wróć do Zielarki po nagrodę", QuestObjective::TalkToNpc(String::from_str("zielarka"))));
        let ghost sv = steps@;
        let q = new_quest("contract_endriaga", "Kontrakt: Endriagi w Lesie", "Endriagi zaatakowały drwali w lesie. Trzeba je wytępić.", steps, 200, 120, false);
        assert(is_initial_quest(q, 2)) by {
            assert(q.steps@ == sv);
        }
        quests.push(q);
        let mut steps: Vec<QuestStep> = Vec::new();
        steps.push(step("Znajdź i zabij Bazyliszka w Jaskini", QuestObjective::KillMonster(String::from_str("Bazyliszek"))));
        let ghost sv = steps@;
        let q = new_quest("contract_basilisk", "Kontrakt: Bazyliszek w Jaskini", "W jaskini zagnieździł się potężny bazyliszek. To zlecenie nie dla żółtodziobów.", steps, 300, 200, false);
        assert(is_initial_quest(q, 3)) by {
            assert(q.steps@ == sv);
        }
        quests.push(q);
        let mut steps: Vec<QuestStep> = Vec::new();
        steps.push(step("Porozmawiaj z Elfem o Leszym", QuestObjective::TalkToNpc(String::from_str("elf"))));
        steps.push(step("Znajdź i pokonaj Leszego", QuestObjective::KillMonster(String::from_str("Leszy"))));
        let ghost sv = steps@;
        let q = new_quest("contract_leshen", "Kontrakt: Leszy - Strażnik Lasu", "Starożytny Leszy terroryzuje okolice. Tylko doświadczony wiedźmin da radę.", steps, 400, 250, false);
        assert(is_initial_quest(q, 4)) by {
            assert(q.steps@ == sv);
        }
        quests.push(q);
        QuestLog { quests, active_quest_index: None }
    }

    /// Starts every not-yet-started quest with the id; the first one started becomes the
    /// followed quest when none is followed.
    pub fn start_quest(&mut self, quest_id: &str)
        ensures
            start_result(*old(self), *final(self), quest_id@),
    {
        let mut i: usize = 0;
        while i < self.quests.len()
            invariant
                i <= self.quests@.len(),
                self.quests@.len() == old(self).quests@.len(),
                forall|k: int| 0 <= k < i ==> started(#[trigger] old(self).quests@[k], self.quests@[k], quest_id@),
                forall|k: int| i <= k < self.quests@.len() ==> #[trigger] self.quests@[k] == old(self).quests@[k],
                old(self).active_quest_index is Some ==> self.active_quest_index == old(self).active_quest_index,
                old(self).active_quest_index is None ==> match self.active_quest_index {
                    Some(f) => f < i && starts(old(self).quests@, f as int, quest_id@)
                        && forall|k: int| 0 <= k < f ==> !starts(old(self).quests@, k, quest_id@),
                    None => forall|k: int| 0 <= k < i ==> !starts(old(self).quests@, k, quest_id@),
                },
            decreases self.quests.len() - i,
        {
            if same_text(self.quests[i].id.as_str(), quest_id) && self.quests[i].status == QuestStatus::NotStarted {
                self.quests[i].status = QuestStatus::Active;
                if self.active_quest_index.is_none() {
                    self.active_quest_index = Some(i);
                }
            }
            i = i + 1;
        }
        proof {
            let qs = old(self).quests@;
            let id = quest_id@;
            if old(self).active_quest_index is None
                && exists|j: int| 0 <= j < qs.len() && starts(qs, j, id) {
                let j = choose|j: int| 0 <= j < qs.len() && starts(qs, j, id)
                    && forall|k: int| 0 <= k < j ==> !starts(qs, k, id);
                let f = self.active_quest_index->0;
                assert(0 <= j < qs.len() && starts(qs, j, id) && forall|k: int| 0 <= k < j ==> !starts(qs, k, id));
                if j < f {
                } else if f < j {
                }
                assert(j == f as int);
            }
        }
    }

    /// Advances every active quest whose current step asks to kill `monster_name`.
    pub fn check_kill_objective(&mut self, monster_name: &str)
        ensures
            checked_result(*old(self), *final(self), monster_name@, false),
    {
        self.check_objective(monster_name, false);
    }

    /// Advances every active quest whose current step asks to talk to `npc_id`.
    pub fn check_talk_objective(&mut self, npc_id: &str)
        ensures
            checked_result(*old(self), *final(self), npc_id@, true),
    {
        self.check_objective(npc_id, true);
    }

    fn check_objective(&mut self, name: &str, talk: bool)
        ensures
            objective_checked(old(self).quests@, final(self).quests@, name@, talk),
            final(self).active_quest_index == old(self).active_quest_index,
    {
        let mut i: usize = 0;
        while i < self.quests.len()
            invariant
                i <= self.quests@.len(),
                self.quests@.len() == old(self).quests@.len(),
                self.active_quest_index == old(self).active_quest_index,
                forall|k: int| 0 <= k < i ==>
                    if step_matches(#[trigger] old(self).quests@[k], name@, talk) {
                        advanced(old(self).quests@[k], self.quests@[k])
                    } else {
                        self.quests@[k] == old(self).quests@[k]
                    },
                forall|k: int| i <= k < self.quests@.len() ==> #[trigger] self.quests@[k] == old(self).quests@[k],
            decreases self.quests.len() - i,
        {
            let mut matches = false;
            if self.quests[i].status == QuestStatus::Active && self.quests[i].current_step < self.quests[i].steps.len() {
                let cs = self.quests[i].current_step;
                match &self.quests[i].steps[cs].objective {
                    QuestObjective::KillMonster(n) => {
                        matches = !talk && same_text(n.as_str(), name);
                    },
                    QuestObjective::TalkToNpc(n) => {
                        matches = talk && same_text(n.as_str(), name);
                    },
                    _ => {},
                }
            }
            assert(matches == step_matches(old(self).quests@[i as int], name@, talk));
            if matches {
                self.quests[i].advance_step();
            }
            i = i + 1;
        }
    }

    /// The active quests, in order.
    pub fn active_quests(&self) -> (r: Vec<&Quest>)
        ensures
            r@.map_values(|q: &Quest| *q) == with_status(self.quests@, self.quests@.len() as int, QuestStatus::Active),
    {
        self.quests_with(QuestStatus::Active)
    }

    /// The completed quests, in order.
    pub fn completed_quests(&self) -> (r: Vec<&Quest>)
        ensures
            r@.map_values(|q: &Quest| *q) == with_status(self.quests@, self.quests@.len() as int, QuestStatus::Completed),
    {
        self.quests_with(QuestStatus::Completed)
    }

    fn quests_with(&self, st: QuestStatus) -> (r: Vec<&Quest>)
        ensures
            r@.map_values(|q: &Quest| *q) == with_status(self.quests@, self.quests@.len() as int, st),
    {
        let mut r: Vec<&Quest> = Vec::new();
        let mut i: usize = 0;
        while i < self.quests.len()
            invariant
                i <= self.quests@.len(),
                r@.map_values(|q: &Quest| *q) == with_status(self.quests@, i as int, st),
            decreases self.quests.len() - i,
        {
            if self.quests[i].status == st {
                r.push(&self.quests[i]);
            }
            i = i + 1;
            assert(r@.map_values(|q: &Quest| *q) =~= with_status(self.quests@, i as int, st));
        }
        r
    }
}

} // verus!
