//! Character statistics: three named attributes, each with a level and the
//! experience gathered towards the next one.
use vstd::prelude::*;

verus! {

#[derive(Debug)]
pub struct CharacterStats {
    pub str: CharacterStat,
    pub dex: CharacterStat,
    pub per: CharacterStat,
}

impl CharacterStats {
    pub fn new(str: usize, dex: usize, per: usize) -> (r: CharacterStats)
        ensures
            r.str.name_view() == "Strength"@,
            r.dex.name_view() == "Dexterity"@,
            r.per.name_view() == "Perception"@,
            r.str.level() == str && r.str.exp() == 0,
            r.dex.level() == dex && r.dex.exp() == 0,
            r.per.level() == per && r.per.exp() == 0,
    {
        CharacterStats {
            str: CharacterStat::new("Strength", str),
            dex: CharacterStat::new("Dexterity", dex),
            per: CharacterStat::new("Perception", per),
        }
    }

    /// The three attributes, in the order strength, dexterity, perception.
    pub fn as_vec(&self) -> (r: Vec<&CharacterStat>)
        ensures
            r@.len() == 3,
            *r@[0] == self.str,
            *r@[1] == self.dex,
            *r@[2] == self.per,
    {
        vec![&self.str, &self.dex, &self.per]
    }
}

impl Clone for CharacterStats {
    fn clone(&self) -> (r: Self)
        ensures
            r == *self,
    {
        CharacterStats { str: self.str.clone(), dex: self.dex.clone(), per: self.per.clone() }
    }
}

#[derive(Debug)]
pub struct CharacterStat {
    name: String,
    level: usize,
    exp: usize,
}

impl Clone for CharacterStat {
    fn clone(&self) -> (r: Self)
        ensures
            r == *self,
    {
        CharacterStat { name: self.name.clone(), level: self.level, exp: self.exp }
    }
}

impl CharacterStat {
    pub closed spec fn name_view(self) -> Seq<char> {
        self.name@
    }

    pub closed spec fn level(self) -> int {
        self.level as int
    }

    pub closed spec fn exp(self) -> int {
        self.exp as int
    }

    pub fn new(name: &str, level: usize) -> (r: CharacterStat)
        ensures
            r.name_view() == name@,
            r.level() == level,
            r.exp() == 0,
    {
        CharacterStat { name: name.to_owned(), level, exp: 0 }
    }

    pub fn name(&self) -> (r: &str)
        ensures
            r@ == self.name_view(),
    {
        self.name.as_str()
    }

    pub fn lvl(&self) -> (r: usize)
        ensures
            r == self.level(),
    {
        self.level
    }

    pub fn current_exp(&self) -> (r: usize)
        ensures
            r == self.exp(),
    {
        self.exp
    }

    pub fn exp_for_next_level(&self) -> (r: usize)
        requires
            self.level() * 10 <= usize::MAX,
        ensures
            r == self.level() * 10,
    {
        self.level * 10
    }

    /// Adds `amount` experience. When the total then exceeds `level * 10`,
    /// the level rises by exactly one and that threshold is taken off the
    /// experience; a single gain never raises more than one level.
    pub fn gain_exp(&mut self, amount: usize)
        requires
            old(self).exp() + amount <= usize::MAX,
            old(self).level() * 10 <= usize::MAX,
        ensures
            final(self).name_view() == old(self).name_view(),
            old(self).exp() + amount > old(self).level() * 10 ==> final(self).level() == old(
                self,
            ).level() + 1 && final(self).exp() == old(self).exp() + amount - old(self).level()
                * 10,
            old(self).exp() + amount <= old(self).level() * 10 ==> final(self).level() == old(
                self,
            ).level() && final(self).exp() == old(self).exp() + amount,
    {
        self.exp = self.exp + amount;
        self.check_level_up()
    }

    fn check_level_up(&mut self)
        requires
            old(self).level() * 10 <= usize::MAX,
        ensures
            final(self).name_view() == old(self).name_view(),
            old(self).exp() > old(self).level() * 10 ==> final(self).level() == old(self).level()
                + 1 && final(self).exp() == old(self).exp() - old(self).level() * 10,
            old(self).exp() <= old(self).level() * 10 ==> *final(self) == *old(self),
    {
        let required_exp = self.exp_for_next_level();
        if self.exp > required_exp {
            self.level = self.level + 1;
            self.exp = self.exp - required_exp;
        }
    }
}

} // verus!
