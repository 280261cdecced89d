use reward_pool::{
    process_initialize_reward_pool, process_instruction, process_record_task_completion,
    process_set_paused, process_update_platform_fee, process_withdraw_rewards, Account,
    AccountData, Action, Address, FarmerAccount, RewardPool, RewardPoolError,
    RewardPoolInstruction, TaskCompletionRecord, TokenAccount,
};
use solana_program::pubkey::Pubkey;

fn address(key: &Pubkey) -> Address {
    Address { bytes: key.to_bytes() }
}

fn derived(program_id: &Address, seeds: &[&[u8]]) -> Address {
    let (key, _bump) = Pubkey::find_program_address(seeds, &Pubkey::new_from_array(program_id.bytes));
    address(&key)
}

fn plain(key: Address) -> Account {
    Account { key, is_signer: false, data: AccountData::Other }
}

fn signer(key: Address) -> Account {
    Account { key, is_signer: true, data: AccountData::Other }
}

fn holding(key: Address, data: AccountData) -> Account {
    Account { key, is_signer: false, data }
}

// The records of one program, and the keys of those who use it.
struct World {
    program_id: Address,
    authority: Address,
    farmer: Address,
    mint: Address,
    pool: AccountData,
    ledger: AccountData,
    vault: AccountData,
    farmer_tokens: AccountData,
    treasury: AccountData,
    tasks: Vec<(String, AccountData)>,
}

impl World {
    fn new(vault_balance: u64) -> World {
        let mint = address(&Pubkey::new_unique());
        World {
            program_id: address(&Pubkey::new_unique()),
            authority: address(&Pubkey::new_unique()),
            farmer: address(&Pubkey::new_unique()),
            mint,
            pool: AccountData::Empty,
            ledger: AccountData::Empty,
            vault: AccountData::Token(TokenAccount { mint, amount: vault_balance }),
            farmer_tokens: AccountData::Token(TokenAccount { mint, amount: 0 }),
            treasury: AccountData::Token(TokenAccount { mint, amount: 0 }),
            tasks: Vec::new(),
        }
    }

    fn pool_key(&self) -> Address {
        derived(&self.program_id, &[b"reward_pool"])
    }

    fn ledger_key(&self) -> Address {
        derived(&self.program_id, &[b"farmer", &self.farmer.bytes])
    }

    fn task_key(&self, task_id: &str) -> Address {
        derived(&self.program_id, &[b"task", task_id.as_bytes()])
    }

    fn vault_key(&self) -> Address {
        derived(&self.program_id, &[b"reward_vault", &self.mint.bytes])
    }

    fn task(&self, task_id: &str) -> AccountData {
        for (id, data) in self.tasks.iter() {
            if id == task_id {
                return data.clone();
            }
        }
        AccountData::Empty
    }

    fn pool_record(&self) -> RewardPool {
        match &self.pool {
            AccountData::RewardPool(pool) => *pool,
            other => panic!("no pool: {:?}", other),
        }
    }

    fn ledger_record(&self) -> FarmerAccount {
        match &self.ledger {
            AccountData::Farmer(farmer) => *farmer,
            other => panic!("no ledger: {:?}", other),
        }
    }

    fn task_record(&self, task_id: &str) -> TaskCompletionRecord {
        match self.task(task_id) {
            AccountData::Task(task) => task,
            other => panic!("no task: {:?}", other),
        }
    }

    fn admin_accounts(&self) -> Vec<Account> {
        vec![holding(self.pool_key(), self.pool.clone()), signer(self.authority)]
    }

    fn initialize(&mut self, fee: u8) -> Result<Vec<Action>, RewardPoolError> {
        let mut accounts = self.admin_accounts();
        accounts.push(plain(address(&solana_program::system_program::id())));
        accounts.push(plain(address(&solana_program::sysvar::rent::id())));
        let result = process_initialize_reward_pool(&self.program_id, &mut accounts, fee);
        self.pool = accounts[0].data.clone();
        result
    }

    fn set_paused(&mut self, is_paused: bool) -> Result<Vec<Action>, RewardPoolError> {
        let mut accounts = self.admin_accounts();
        let result = process_set_paused(&self.program_id, &mut accounts, is_paused);
        self.pool = accounts[0].data.clone();
        result
    }

    fn update_fee(&mut self, fee: u8) -> Result<Vec<Action>, RewardPoolError> {
        let mut accounts = self.admin_accounts();
        let result = process_update_platform_fee(&self.program_id, &mut accounts, fee);
        self.pool = accounts[0].data.clone();
        result
    }

    fn record_accounts(&self, task_id: &str) -> Vec<Account> {
        vec![
            holding(self.pool_key(), self.pool.clone()),
            holding(self.ledger_key(), self.ledger.clone()),
            holding(self.task_key(task_id), self.task(task_id)),
            plain(self.farmer),
            plain(self.mint),
            signer(self.authority),
            plain(address(&solana_program::system_program::id())),
            plain(address(&solana_program::sysvar::rent::id())),
        ]
    }

    fn record(
        &mut self,
        task_id: &str,
        pool_id: &str,
        reward: u64,
        slot: u64,
    ) -> Result<Vec<Action>, RewardPoolError> {
        let mut accounts = self.record_accounts(task_id);
        let result = process_record_task_completion(
            &self.program_id,
            &mut accounts,
            task_id.to_string(),
            pool_id.to_string(),
            reward,
            slot,
        );
        if result.is_ok() {
            self.tasks.push((task_id.to_string(), accounts[2].data.clone()));
        }
        self.pool = accounts[0].data.clone();
        self.ledger = accounts[1].data.clone();
        result
    }

    fn withdraw_accounts(&self, task_ids: &[&str]) -> Vec<Account> {
        let mut accounts = vec![
            holding(self.pool_key(), self.pool.clone()),
            holding(self.ledger_key(), self.ledger.clone()),
            holding(self.vault_key(), self.vault.clone()),
            holding(address(&Pubkey::new_unique()), self.farmer_tokens.clone()),
            holding(address(&Pubkey::new_unique()), self.treasury.clone()),
            signer(self.farmer),
            plain(address(&spl_token::id())),
        ];
        for (id, data) in self.tasks.iter() {
            if task_ids.contains(&id.as_str()) {
                accounts.push(holding(self.task_key(id), data.clone()));
            }
        }
        accounts
    }

    fn store(&mut self, accounts: &[Account]) {
        self.pool = accounts[0].data.clone();
        self.ledger = accounts[1].data.clone();
        for account in accounts[7..].iter() {
            for (id, data) in self.tasks.iter_mut() {
                if derived(&self.program_id, &[b"task", id.as_bytes()]) == account.key {
                    *data = account.data.clone();
                }
            }
        }
    }

    fn withdraw(
        &mut self,
        task_ids: &[&str],
        expected_nonce: u64,
        slot: u64,
    ) -> Result<Vec<Action>, RewardPoolError> {
        let mut accounts = self.withdraw_accounts(task_ids);
        let ids: Vec<String> = task_ids.iter().map(|id| id.to_string()).collect();
        let result =
            process_withdraw_rewards(&self.program_id, &mut accounts, ids, expected_nonce, slot);
        self.store(&accounts);
        result
    }
}

fn to_farmer(amount: u64) -> Action {
    Action::Transfer { source: 2, destination: 3, authority: 2, amount }
}

fn to_treasury(amount: u64) -> Action {
    Action::Transfer { source: 2, destination: 4, authority: 2, amount }
}

// A pool with a fee of 10 percent and one task of 1000 for the farmer.
fn world_with_one_task() -> World {
    let mut world = World::new(5000);
    assert!(world.initialize(10).is_ok());
    assert!(world.record("t1", "p1", 1000, 7).is_ok());
    world
}

#[test]
fn initialize_record_withdraw_pays_farmer_and_treasury() {
    let mut world = World::new(1000);
    assert_eq!(
        world.initialize(10),
        Ok(vec![Action::CreateAccount { payer: 1, account: 0, space: 51 }])
    );
    assert_eq!(
        world.pool_record(),
        RewardPool {
            is_initialized: true,
            platform_authority: world.authority,
            platform_fee_percentage: 10,
            total_rewards_distributed: 0,
            total_platform_fees_collected: 0,
            is_paused: false,
        }
    );

    assert_eq!(
        world.record("t1", "p1", 1000, 7),
        Ok(vec![
            Action::CreateAccount { payer: 5, account: 1, space: 65 },
            Action::CreateAccount { payer: 5, account: 2, space: 210 },
        ])
    );
    assert_eq!(world.ledger_record().total_rewards_earned, 1000);
    assert_eq!(
        world.task_record("t1"),
        TaskCompletionRecord {
            is_initialized: true,
            task_id: "t1".to_string(),
            farmer_address: world.farmer,
            pool_id: "p1".to_string(),
            reward_amount: 1000,
            token_mint: world.mint,
            is_claimed: false,
            completion_slot: 7,
        }
    );

    assert_eq!(world.withdraw(&["t1"], 0, 42), Ok(vec![to_farmer(900), to_treasury(100)]));
    assert_eq!(
        world.ledger_record(),
        FarmerAccount {
            is_initialized: true,
            farmer_address: world.farmer,
            withdrawal_nonce: 1,
            total_rewards_earned: 1000,
            total_rewards_withdrawn: 1000,
            last_withdrawal_slot: 42,
        }
    );
    assert!(world.task_record("t1").is_claimed);
    assert_eq!(world.pool_record().total_rewards_distributed, 900);
    assert_eq!(world.pool_record().total_platform_fees_collected, 100);
}

#[test]
fn repeated_withdrawal_fails_on_the_nonce_and_changes_nothing() {
    let mut world = world_with_one_task();
    assert!(world.withdraw(&["t1"], 0, 42).is_ok());

    let mut accounts = world.withdraw_accounts(&["t1"]);
    let before = accounts.clone();
    let result = process_withdraw_rewards(
        &world.program_id,
        &mut accounts,
        vec!["t1".to_string()],
        0,
        43,
    );
    assert_eq!(result, Err(RewardPoolError::InvalidNonce));
    assert_eq!(accounts, before);
    assert_eq!(world.ledger_record().withdrawal_nonce, 1);
}

#[test]
fn empty_batch_is_an_invalid_argument() {
    let mut world = world_with_one_task();
    assert_eq!(world.withdraw(&[], 0, 42), Err(RewardPoolError::InvalidArgument));
    assert_eq!(world.ledger_record().withdrawal_nonce, 0);

    // The same after a withdrawal, under the nonce that is then stored.
    assert!(world.withdraw(&["t1"], 0, 42).is_ok());
    assert_eq!(world.withdraw(&[], 1, 43), Err(RewardPoolError::InvalidArgument));
    assert_eq!(world.ledger_record().withdrawal_nonce, 1);
}

#[test]
fn empty_batch_under_a_stale_nonce_fails_too() {
    let mut world = world_with_one_task();
    assert_eq!(world.withdraw(&[], 5, 42), Err(RewardPoolError::InvalidNonce));
}

#[test]
fn batch_over_two_tokens_is_refused_and_claims_nothing() {
    let mut world = world_with_one_task();
    let first_mint = world.mint;
    world.mint = address(&Pubkey::new_unique());
    assert!(world.record("t2", "pool-1", 500, 8).is_ok());
    assert_ne!(world.task_record("t2").token_mint, first_mint);
    world.mint = first_mint;

    let mut accounts = world.withdraw_accounts(&["t1", "t2"]);
    let before = accounts.clone();
    let result = process_withdraw_rewards(
        &world.program_id,
        &mut accounts,
        vec!["t1".to_string(), "t2".to_string()],
        0,
        42,
    );
    assert_eq!(result, Err(RewardPoolError::InconsistentAsset));
    assert_eq!(accounts, before);
    assert!(!world.task_record("t1").is_claimed);
    assert!(!world.task_record("t2").is_claimed);
}

#[test]
fn fee_of_a_new_pool_is_at_most_100() {
    let mut world = World::new(0);
    assert_eq!(world.initialize(101), Err(RewardPoolError::InvalidFeePercentage));
    assert_eq!(world.pool, AccountData::Empty);
    assert!(world.initialize(100).is_ok());
    assert_eq!(world.pool_record().platform_fee_percentage, 100);
}

#[test]
fn fee_of_a_pool_stays_at_most_100() {
    let mut world = World::new(0);
    assert!(world.initialize(0).is_ok());
    assert_eq!(world.update_fee(150), Err(RewardPoolError::InvalidFeePercentage));
    assert_eq!(world.pool_record().platform_fee_percentage, 0);
    assert_eq!(world.update_fee(100), Ok(vec![]));
    assert_eq!(world.pool_record().platform_fee_percentage, 100);
    assert_eq!(world.update_fee(15), Ok(vec![]));
    assert_eq!(world.pool_record().platform_fee_percentage, 15);
}

#[test]
fn pool_cannot_be_set_up_twice() {
    let mut world = World::new(0);
    assert!(world.initialize(10).is_ok());
    let first = world.pool_record();
    world.authority = address(&Pubkey::new_unique());
    assert_eq!(world.initialize(20), Err(RewardPoolError::AlreadyInitialized));
    assert_eq!(world.pool_record(), first);
}

#[test]
fn fee_is_rounded_down() {
    let mut world = World::new(5000);
    assert!(world.initialize(10).is_ok());
    assert!(world.record("t1", "pool-1", 999, 1).is_ok());
    assert_eq!(world.withdraw(&["t1"], 0, 2), Ok(vec![to_farmer(900), to_treasury(99)]));
    assert_eq!(world.pool_record().total_rewards_distributed, 900);
    assert_eq!(world.pool_record().total_platform_fees_collected, 99);
    assert_eq!(world.ledger_record().total_rewards_withdrawn, 999);
}

#[test]
fn fee_of_nothing_is_not_transferred() {
    let mut world = World::new(5000);
    assert!(world.initialize(0).is_ok());
    assert!(world.record("t1", "pool-1", 1000, 1).is_ok());
    assert_eq!(world.withdraw(&["t1"], 0, 2), Ok(vec![to_farmer(1000)]));
}

#[test]
fn share_of_nothing_is_not_transferred() {
    let mut world = World::new(5000);
    assert!(world.initialize(100).is_ok());
    assert!(world.record("t1", "pool-1", 1000, 1).is_ok());
    assert_eq!(world.withdraw(&["t1"], 0, 2), Ok(vec![to_treasury(1000)]));
    assert_eq!(world.pool_record().total_platform_fees_collected, 1000);
}

#[test]
fn largest_amount_is_split_without_overflow() {
    let mut world = World::new(u64::MAX);
    assert!(world.initialize(33).is_ok());
    assert!(world.record("t1", "pool-1", u64::MAX, 1).is_ok());
    assert_eq!(
        world.withdraw(&["t1"], 0, 2),
        Ok(vec![to_farmer(12359318529385399583), to_treasury(6087425544324152032)])
    );
}

#[test]
fn nonce_rises_by_one_whatever_the_batch() {
    let mut world = World::new(5000);
    assert!(world.initialize(10).is_ok());
    assert!(world.record("t1", "pool-1", 100, 1).is_ok());
    assert!(world.record("t2", "pool-1", 200, 1).is_ok());
    assert!(world.record("t3", "pool-1", 300, 1).is_ok());
    assert!(world.record("t4", "pool-1", 50, 1).is_ok());
    assert_eq!(world.ledger_record().total_rewards_earned, 650);

    assert_eq!(
        world.withdraw(&["t1", "t2", "t3"], 0, 9),
        Ok(vec![to_farmer(540), to_treasury(60)])
    );
    assert_eq!(world.ledger_record().withdrawal_nonce, 1);
    assert_eq!(world.ledger_record().total_rewards_withdrawn, 600);
    assert!(world.task_record("t1").is_claimed);
    assert!(world.task_record("t2").is_claimed);
    assert!(world.task_record("t3").is_claimed);
    assert!(!world.task_record("t4").is_claimed);

    assert_eq!(world.withdraw(&["t4"], 1, 10), Ok(vec![to_farmer(45), to_treasury(5)]));
    assert_eq!(world.ledger_record().withdrawal_nonce, 2);
    assert_eq!(world.ledger_record().last_withdrawal_slot, 10);
}

#[test]
fn stale_and_future_nonces_are_refused() {
    let mut world = world_with_one_task();
    assert_eq!(world.withdraw(&["t1"], 1, 42), Err(RewardPoolError::InvalidNonce));
    assert!(!world.task_record("t1").is_claimed);
    assert!(world.withdraw(&["t1"], 0, 42).is_ok());
    assert!(world.record("t2", "pool-1", 10, 43).is_ok());
    assert_eq!(world.withdraw(&["t2"], 0, 44), Err(RewardPoolError::InvalidNonce));
    assert_eq!(world.withdraw(&["t2"], 2, 44), Err(RewardPoolError::InvalidNonce));
    assert!(!world.task_record("t2").is_claimed);
}

#[test]
fn claimed_task_is_not_paid_again() {
    let mut world = world_with_one_task();
    assert!(world.withdraw(&["t1"], 0, 42).is_ok());
    assert_eq!(world.withdraw(&["t1"], 1, 43), Err(RewardPoolError::TaskAlreadyClaimed));
    assert_eq!(world.ledger_record().withdrawal_nonce, 1);
    assert_eq!(world.ledger_record().total_rewards_withdrawn, 1000);

    // Nor in a batch with a task that is still open.
    assert!(world.record("t2", "pool-1", 10, 43).is_ok());
    assert_eq!(world.withdraw(&["t2", "t1"], 1, 44), Err(RewardPoolError::TaskAlreadyClaimed));
    assert!(!world.task_record("t2").is_claimed);
}

#[test]
fn task_named_twice_in_a_batch_is_refused() {
    let mut world = world_with_one_task();
    assert_eq!(world.withdraw(&["t1", "t1"], 0, 42), Err(RewardPoolError::TaskAlreadyClaimed));
    assert!(!world.task_record("t1").is_claimed);
    assert_eq!(world.ledger_record().withdrawal_nonce, 0);
}

#[test]
fn task_cannot_be_recorded_twice() {
    let mut world = world_with_one_task();
    assert_eq!(world.record("t1", "pool-2", 5, 8), Err(RewardPoolError::DuplicateTask));
    assert_eq!(world.ledger_record().total_rewards_earned, 1000);
    assert_eq!(world.task_record("t1").reward_amount, 1000);

    // Nor for another farmer.
    let first_farmer = world.farmer;
    world.farmer = address(&Pubkey::new_unique());
    world.ledger = AccountData::Empty;
    assert_eq!(world.record("t1", "pool-1", 5, 8), Err(RewardPoolError::DuplicateTask));
    assert_eq!(world.ledger, AccountData::Empty);
    assert_eq!(world.task_record("t1").farmer_address, first_farmer);
}

#[test]
fn second_task_is_added_to_the_ledger() {
    let mut world = world_with_one_task();
    assert_eq!(
        world.record("t2", "pool-1", 234, 9),
        Ok(vec![Action::CreateAccount { payer: 5, account: 2, space: 210 }])
    );
    assert_eq!(world.ledger_record().total_rewards_earned, 1234);
    assert_eq!(world.ledger_record().withdrawal_nonce, 0);
}

#[test]
fn paused_pool_refuses_tasks_and_withdrawals() {
    let mut world = world_with_one_task();
    assert_eq!(world.set_paused(true), Ok(vec![]));
    assert!(world.pool_record().is_paused);

    assert_eq!(world.record("t2", "pool-1", 10, 8), Err(RewardPoolError::RewardPoolPaused));
    assert_eq!(world.task("t2"), AccountData::Empty);
    assert_eq!(world.withdraw(&["t1"], 0, 9), Err(RewardPoolError::RewardPoolPaused));
    assert!(!world.task_record("t1").is_claimed);
    assert_eq!(world.ledger_record().total_rewards_earned, 1000);
}

#[test]
fn paused_pool_obeys_its_authority() {
    let mut world = world_with_one_task();
    assert!(world.set_paused(true).is_ok());
    assert_eq!(world.update_fee(20), Ok(vec![]));
    assert_eq!(world.pool_record().platform_fee_percentage, 20);
    assert!(world.pool_record().is_paused);
    assert_eq!(world.set_paused(true), Ok(vec![]));
    assert_eq!(world.set_paused(false), Ok(vec![]));
    assert!(!world.pool_record().is_paused);
    assert_eq!(world.withdraw(&["t1"], 0, 9), Ok(vec![to_farmer(800), to_treasury(200)]));
}

#[test]
fn only_the_authority_governs_the_pool() {
    let mut world = world_with_one_task();
    let authority = world.authority;
    world.authority = address(&Pubkey::new_unique());
    assert_eq!(world.set_paused(true), Err(RewardPoolError::UnauthorizedPlatform));
    assert_eq!(world.update_fee(50), Err(RewardPoolError::UnauthorizedPlatform));
    assert_eq!(world.record("t2", "pool-1", 10, 8), Err(RewardPoolError::UnauthorizedPlatform));
    assert_eq!(world.pool_record().platform_authority, authority);
    assert_eq!(world.pool_record().platform_fee_percentage, 10);
    assert!(!world.pool_record().is_paused);
}

#[test]
fn requests_must_be_signed() {
    let mut world = world_with_one_task();

    let mut accounts = world.admin_accounts();
    accounts[1].is_signer = false;
    assert_eq!(
        process_set_paused(&world.program_id, &mut accounts, true),
        Err(RewardPoolError::MissingRequiredSignature)
    );
    assert_eq!(
        process_update_platform_fee(&world.program_id, &mut accounts, 5),
        Err(RewardPoolError::MissingRequiredSignature)
    );

    let mut accounts = world.record_accounts("t2");
    accounts[5].is_signer = false;
    assert_eq!(
        process_record_task_completion(
            &world.program_id,
            &mut accounts,
            "t2".to_string(),
            "pool-1".to_string(),
            1,
            8
        ),
        Err(RewardPoolError::MissingRequiredSignature)
    );

    let mut accounts = world.withdraw_accounts(&["t1"]);
    accounts[5].is_signer = false;
    assert_eq!(
        process_withdraw_rewards(&world.program_id, &mut accounts, vec!["t1".to_string()], 0, 9),
        Err(RewardPoolError::MissingRequiredSignature)
    );

    let mut fresh = World::new(0);
    let mut accounts = fresh.admin_accounts();
    accounts.push(plain(address(&Pubkey::new_unique())));
    accounts.push(plain(address(&Pubkey::new_unique())));
    accounts[1].is_signer = false;
    assert_eq!(
        process_initialize_reward_pool(&fresh.program_id, &mut accounts, 10),
        Err(RewardPoolError::MissingRequiredSignature)
    );
    assert!(fresh.initialize(10).is_ok());
}

#[test]
fn accounts_must_stand_at_their_derived_addresses() {
    let mut world = world_with_one_task();
    let elsewhere = address(&Pubkey::new_unique());

    let mut accounts = world.admin_accounts();
    accounts[0].key = elsewhere;
    assert_eq!(
        process_set_paused(&world.program_id, &mut accounts, true),
        Err(RewardPoolError::InvalidSeeds)
    );
    assert_eq!(
        process_update_platform_fee(&world.program_id, &mut accounts, 5),
        Err(RewardPoolError::InvalidSeeds)
    );
    // The program's own address is not the address of its pool.
    accounts[0].key = world.program_id;
    assert_eq!(
        process_set_paused(&world.program_id, &mut accounts, true),
        Err(RewardPoolError::InvalidSeeds)
    );

    for place in 0..3 {
        let mut accounts = world.record_accounts("t2");
        accounts[place].key = elsewhere;
        assert_eq!(
            process_record_task_completion(
                &world.program_id,
                &mut accounts,
                "t2".to_string(),
                "pool-1".to_string(),
                1,
                8
            ),
            Err(RewardPoolError::InvalidSeeds)
        );
    }

    for place in 0..3 {
        let mut accounts = world.withdraw_accounts(&["t1"]);
        accounts[place].key = elsewhere;
        assert_eq!(
            process_withdraw_rewards(
                &world.program_id,
                &mut accounts,
                vec!["t1".to_string()],
                0,
                9
            ),
            Err(RewardPoolError::InvalidSeeds)
        );
    }

    let mut fresh = World::new(0);
    let mut accounts = fresh.admin_accounts();
    accounts.push(plain(address(&Pubkey::new_unique())));
    accounts.push(plain(address(&Pubkey::new_unique())));
    accounts[0].key = elsewhere;
    assert_eq!(
        process_initialize_reward_pool(&fresh.program_id, &mut accounts, 10),
        Err(RewardPoolError::InvalidSeeds)
    );
    assert!(fresh.initialize(10).is_ok());
    assert!(world.withdraw(&["t1"], 0, 9).is_ok());
}

#[test]
fn too_few_accounts_are_refused() {
    let world = world_with_one_task();
    let mut accounts = world.admin_accounts();
    accounts.truncate(1);
    assert_eq!(
        process_set_paused(&world.program_id, &mut accounts, true),
        Err(RewardPoolError::NotEnoughAccountKeys)
    );
    assert_eq!(
        process_update_platform_fee(&world.program_id, &mut accounts, 101),
        Err(RewardPoolError::NotEnoughAccountKeys)
    );
    let mut accounts = world.admin_accounts();
    accounts.push(plain(address(&Pubkey::new_unique())));
    assert_eq!(
        process_initialize_reward_pool(&world.program_id, &mut accounts, 101),
        Err(RewardPoolError::NotEnoughAccountKeys)
    );
    let mut accounts = world.record_accounts("t2");
    accounts.truncate(7);
    assert_eq!(
        process_record_task_completion(
            &world.program_id,
            &mut accounts,
            "t2".to_string(),
            "pool-1".to_string(),
            1,
            8
        ),
        Err(RewardPoolError::NotEnoughAccountKeys)
    );
    let mut accounts = world.withdraw_accounts(&["t1"]);
    accounts.truncate(6);
    assert_eq!(
        process_withdraw_rewards(&world.program_id, &mut accounts, vec!["t1".to_string()], 0, 9),
        Err(RewardPoolError::NotEnoughAccountKeys)
    );
    let mut accounts: Vec<Account> = Vec::new();
    assert_eq!(
        process_withdraw_rewards(&world.program_id, &mut accounts, vec![], 0, 9),
        Err(RewardPoolError::NotEnoughAccountKeys)
    );
}

#[test]
fn records_must_be_initialized() {
    let mut world = World::new(5000);
    assert_eq!(world.set_paused(true), Err(RewardPoolError::AccountNotInitialized));
    assert_eq!(world.update_fee(5), Err(RewardPoolError::AccountNotInitialized));
    assert_eq!(world.record("t1", "pool-1", 1, 1), Err(RewardPoolError::AccountNotInitialized));
    assert_eq!(world.withdraw(&["t1"], 0, 1), Err(RewardPoolError::AccountNotInitialized));

    assert!(world.initialize(10).is_ok());
    // No ledger yet for the farmer.
    assert_eq!(world.withdraw(&["t1"], 0, 1), Err(RewardPoolError::AccountNotInitialized));

    assert!(world.record("t1", "pool-1", 1000, 1).is_ok());
    let mut ledger = world.ledger_record();
    ledger.is_initialized = false;
    world.ledger = AccountData::Farmer(ledger);
    assert_eq!(world.record("t2", "pool-1", 1, 1), Err(RewardPoolError::AccountNotInitialized));
    assert_eq!(world.withdraw(&["t1"], 0, 1), Err(RewardPoolError::AccountNotInitialized));
    ledger.is_initialized = true;
    world.ledger = AccountData::Farmer(ledger);

    let mut task = world.task_record("t1");
    task.is_initialized = false;
    world.tasks[0].1 = AccountData::Task(task);
    assert_eq!(world.withdraw(&["t1"], 0, 1), Err(RewardPoolError::AccountNotInitialized));

    let mut pool = world.pool_record();
    pool.is_initialized = false;
    world.pool = AccountData::RewardPool(pool);
    assert_eq!(world.set_paused(true), Err(RewardPoolError::AccountNotInitialized));
}

#[test]
fn task_without_a_record_is_not_found() {
    let mut world = world_with_one_task();
    assert_eq!(world.withdraw(&["t9"], 0, 9), Err(RewardPoolError::TaskNotFound));
    assert_eq!(world.withdraw(&["t1", "t9"], 0, 9), Err(RewardPoolError::TaskNotFound));
    assert!(!world.task_record("t1").is_claimed);

    // An account at the address of the task that holds nothing.
    let mut accounts = world.withdraw_accounts(&[]);
    accounts.push(holding(world.task_key("t9"), AccountData::Empty));
    assert_eq!(
        process_withdraw_rewards(&world.program_id, &mut accounts, vec!["t9".to_string()], 0, 9),
        Err(RewardPoolError::TaskNotFound)
    );

    // An id from which no address can be derived.
    let long_id = "a".repeat(33);
    assert_eq!(
        process_withdraw_rewards(&world.program_id, &mut accounts, vec![long_id], 0, 9),
        Err(RewardPoolError::TaskNotFound)
    );
}

#[test]
fn tasks_of_another_farmer_are_refused() {
    let mut world = world_with_one_task();
    let first_farmer = world.farmer;
    let first_ledger = world.ledger.clone();
    world.farmer = address(&Pubkey::new_unique());
    world.ledger = AccountData::Empty;
    assert!(world.record("t2", "pool-1", 70, 8).is_ok());
    assert_eq!(world.ledger_record().farmer_address, world.farmer);
    assert_eq!(world.ledger_record().total_rewards_earned, 70);

    // The second farmer names a task of the first.
    assert_eq!(world.withdraw(&["t2", "t1"], 0, 9), Err(RewardPoolError::InvalidFarmerAddress));
    assert!(!world.task_record("t2").is_claimed);

    // The second farmer hands in the ledger of the first.
    let mut accounts = world.withdraw_accounts(&["t2"]);
    accounts[1].data = first_ledger.clone();
    assert_eq!(
        process_withdraw_rewards(&world.program_id, &mut accounts, vec!["t2".to_string()], 0, 9),
        Err(RewardPoolError::InvalidFarmerAddress)
    );
    let mut accounts = world.record_accounts("t3");
    accounts[1].data = first_ledger;
    assert_eq!(
        process_record_task_completion(
            &world.program_id,
            &mut accounts,
            "t3".to_string(),
            "pool-1".to_string(),
            1,
            8
        ),
        Err(RewardPoolError::InvalidFarmerAddress)
    );
    assert_eq!(world.task_record("t1").farmer_address, first_farmer);
}

#[test]
fn vault_must_hold_what_the_batch_is_worth() {
    let mut world = World::new(999);
    assert!(world.initialize(10).is_ok());
    assert!(world.record("t1", "pool-1", 1000, 1).is_ok());
    assert_eq!(world.withdraw(&["t1"], 0, 2), Err(RewardPoolError::InsufficientTokenBalance));
    assert!(!world.task_record("t1").is_claimed);
    world.vault = AccountData::Token(TokenAccount { mint: world.mint, amount: 1000 });
    assert!(world.withdraw(&["t1"], 0, 2).is_ok());
}

#[test]
fn token_accounts_must_hold_the_token_of_the_batch() {
    let mut world = world_with_one_task();
    let other = TokenAccount { mint: address(&Pubkey::new_unique()), amount: 5000 };
    for place in 3..5 {
        let mut accounts = world.withdraw_accounts(&["t1"]);
        accounts[place].data = AccountData::Token(other);
        assert_eq!(
            process_withdraw_rewards(
                &world.program_id,
                &mut accounts,
                vec!["t1".to_string()],
                0,
                9
            ),
            Err(RewardPoolError::InvalidTokenAccount)
        );
        accounts[place].data = AccountData::Other;
        assert_eq!(
            process_withdraw_rewards(
                &world.program_id,
                &mut accounts,
                vec!["t1".to_string()],
                0,
                9
            ),
            Err(RewardPoolError::InvalidTokenAccount)
        );
    }
    let mut accounts = world.withdraw_accounts(&["t1"]);
    accounts[2].data = AccountData::Token(other);
    assert_eq!(
        process_withdraw_rewards(&world.program_id, &mut accounts, vec!["t1".to_string()], 0, 9),
        Err(RewardPoolError::InvalidTokenAccount)
    );
    assert!(world.withdraw(&["t1"], 0, 9).is_ok());
}

#[test]
fn vault_of_another_token_is_at_another_address() {
    let mut world = world_with_one_task();
    let other_mint = address(&Pubkey::new_unique());
    let mut accounts = world.withdraw_accounts(&["t1"]);
    accounts[2].key = derived(&world.program_id, &[b"reward_vault", &other_mint.bytes]);
    assert_eq!(
        process_withdraw_rewards(&world.program_id, &mut accounts, vec!["t1".to_string()], 0, 9),
        Err(RewardPoolError::InvalidSeeds)
    );
    assert!(world.withdraw(&["t1"], 0, 9).is_ok());
}

#[test]
fn task_of_no_reward_is_recorded_but_not_withdrawn_alone() {
    let mut world = World::new(5000);
    assert!(world.initialize(10).is_ok());
    assert!(world.record("t0", "pool-1", 0, 1).is_ok());
    assert_eq!(world.ledger_record().total_rewards_earned, 0);
    assert_eq!(world.task_record("t0").reward_amount, 0);
    assert_eq!(world.withdraw(&["t0"], 0, 2), Err(RewardPoolError::InvalidArgument));
    assert!(!world.task_record("t0").is_claimed);
    assert_eq!(world.ledger_record().withdrawal_nonce, 0);

    assert!(world.record("t1", "pool-1", 10, 1).is_ok());
    assert_eq!(world.withdraw(&["t0", "t1"], 0, 2), Ok(vec![to_farmer(9), to_treasury(1)]));
    assert!(world.task_record("t0").is_claimed);
    assert!(world.task_record("t1").is_claimed);
}

#[test]
fn earnings_do_not_overflow() {
    let mut world = World::new(u64::MAX);
    assert!(world.initialize(10).is_ok());
    assert!(world.record("t1", "pool-1", u64::MAX, 1).is_ok());
    assert_eq!(world.record("t2", "pool-1", 1, 1), Err(RewardPoolError::Overflow));
    assert_eq!(world.ledger_record().total_rewards_earned, u64::MAX);
    assert_eq!(world.task("t2"), AccountData::Empty);
}

#[test]
fn batch_total_does_not_overflow() {
    let mut world = World::new(u64::MAX);
    assert!(world.initialize(10).is_ok());
    assert!(world.record("t1", "pool-1", u64::MAX, 1).is_ok());
    let mut ledger = world.ledger_record();
    ledger.total_rewards_earned = 0;
    world.ledger = AccountData::Farmer(ledger);
    assert!(world.record("t2", "pool-1", 1, 1).is_ok());
    assert_eq!(world.withdraw(&["t1", "t2"], 0, 2), Err(RewardPoolError::Overflow));
    assert!(!world.task_record("t1").is_claimed);
    assert!(!world.task_record("t2").is_claimed);
}

#[test]
fn counters_do_not_overflow() {
    let mut world = world_with_one_task();
    let ledger = world.ledger_record();

    world.ledger = AccountData::Farmer(FarmerAccount { withdrawal_nonce: u64::MAX, ..ledger });
    assert_eq!(world.withdraw(&["t1"], u64::MAX, 2), Err(RewardPoolError::Overflow));

    world.ledger = AccountData::Farmer(FarmerAccount {
        total_rewards_withdrawn: u64::MAX - 999,
        ..ledger
    });
    assert_eq!(world.withdraw(&["t1"], 0, 2), Err(RewardPoolError::Overflow));
    world.ledger = AccountData::Farmer(ledger);

    let pool = world.pool_record();
    world.pool =
        AccountData::RewardPool(RewardPool { total_rewards_distributed: u64::MAX - 899, ..pool });
    assert_eq!(world.withdraw(&["t1"], 0, 2), Err(RewardPoolError::Overflow));
    world.pool = AccountData::RewardPool(RewardPool {
        total_platform_fees_collected: u64::MAX - 99,
        ..pool
    });
    assert_eq!(world.withdraw(&["t1"], 0, 2), Err(RewardPoolError::Overflow));
    assert!(!world.task_record("t1").is_claimed);

    world.pool = AccountData::RewardPool(RewardPool {
        total_rewards_distributed: u64::MAX - 900,
        total_platform_fees_collected: u64::MAX - 100,
        ..pool
    });
    assert!(world.withdraw(&["t1"], 0, 2).is_ok());
    assert_eq!(world.pool_record().total_rewards_distributed, u64::MAX);
    assert_eq!(world.pool_record().total_platform_fees_collected, u64::MAX);
}

#[test]
fn pool_with_a_fee_above_100_pays_nothing_out() {
    let mut world = world_with_one_task();
    let pool = world.pool_record();
    world.pool = AccountData::RewardPool(RewardPool { platform_fee_percentage: 101, ..pool });
    assert_eq!(world.withdraw(&["t1"], 0, 2), Err(RewardPoolError::InvalidFeePercentage));
    assert!(!world.task_record("t1").is_claimed);
}

#[test]
fn strings_of_a_task_are_bounded() {
    let mut world = World::new(0);
    assert!(world.initialize(10).is_ok());

    // No address is derived from an id of more than 32 bytes.
    let mut accounts = world.record_accounts("t1");
    assert_eq!(
        process_record_task_completion(
            &world.program_id,
            &mut accounts,
            "a".repeat(33),
            "pool-1".to_string(),
            1,
            1
        ),
        Err(RewardPoolError::InvalidSeeds)
    );

    // The record has room for 120 bytes of text.
    let task_id = "b".repeat(32);
    assert_eq!(
        world.record(&task_id, &"p".repeat(89), 1, 1),
        Err(RewardPoolError::InvalidArgument)
    );
    assert_eq!(world.ledger, AccountData::Empty);
    assert!(world.record(&task_id, &"p".repeat(88), 1, 1).is_ok());
    assert_eq!(world.task_record(&task_id).pool_id.len(), 88);
    // Text is measured in bytes.
    assert_eq!(
        world.record("t2", &"é".repeat(60), 1, 1),
        Err(RewardPoolError::InvalidArgument)
    );
    assert!(world.record("t2", &"é".repeat(59), 1, 1).is_ok());
}

#[test]
fn task_is_found_wherever_its_record_stands() {
    let mut world = World::new(5000);
    assert!(world.initialize(10).is_ok());
    assert!(world.record("t1", "pool-1", 100, 1).is_ok());
    assert!(world.record("t2", "pool-1", 200, 1).is_ok());
    let mut accounts = world.withdraw_accounts(&[]);
    accounts.push(plain(address(&Pubkey::new_unique())));
    accounts.push(holding(world.task_key("t2"), world.task("t2")));
    accounts.push(plain(address(&Pubkey::new_unique())));
    accounts.push(holding(world.task_key("t1"), world.task("t1")));
    let result = process_instruction(
        &world.program_id,
        &mut accounts,
        RewardPoolInstruction::WithdrawRewards {
            task_ids: vec!["t1".to_string(), "t2".to_string()],
            expected_nonce: 0,
        },
        3,
    );
    assert_eq!(result, Ok(vec![to_farmer(270), to_treasury(30)]));
    match (&accounts[8].data, &accounts[10].data) {
        (AccountData::Task(second), AccountData::Task(first)) => {
            assert_eq!(first.task_id, "t1");
            assert!(first.is_claimed);
            assert_eq!(second.task_id, "t2");
            assert!(second.is_claimed);
        },
        other => panic!("no tasks: {:?}", other),
    }
    assert_eq!(accounts[7].data, AccountData::Other);
}

#[test]
fn requests_are_served_through_the_entry_point() {
    let mut world = World::new(5000);
    let program_id = world.program_id;

    let mut accounts = world.admin_accounts();
    accounts.push(plain(address(&Pubkey::new_unique())));
    accounts.push(plain(address(&Pubkey::new_unique())));
    assert_eq!(
        process_instruction(
            &program_id,
            &mut accounts,
            RewardPoolInstruction::InitializeRewardPool { platform_fee_percentage: 25 },
            0
        ),
        Ok(vec![Action::CreateAccount { payer: 1, account: 0, space: 51 }])
    );
    world.pool = accounts[0].data.clone();

    let mut accounts = world.record_accounts("t1");
    assert_eq!(
        process_instruction(
            &program_id,
            &mut accounts,
            RewardPoolInstruction::RecordTaskCompletion {
                task_id: "t1".to_string(),
                pool_id: "pool-1".to_string(),
                reward_amount: 400,
            },
            5
        ),
        Ok(vec![
            Action::CreateAccount { payer: 5, account: 1, space: 65 },
            Action::CreateAccount { payer: 5, account: 2, space: 210 },
        ])
    );
    world.ledger = accounts[1].data.clone();
    world.tasks.push(("t1".to_string(), accounts[2].data.clone()));
    assert_eq!(world.task_record("t1").completion_slot, 5);

    let mut accounts = world.admin_accounts();
    assert_eq!(
        process_instruction(
            &program_id,
            &mut accounts,
            RewardPoolInstruction::UpdatePlatformFee { new_fee_percentage: 50 },
            6
        ),
        Ok(vec![])
    );
    assert_eq!(
        process_instruction(
            &program_id,
            &mut accounts,
            RewardPoolInstruction::SetPaused { is_paused: true },
            6
        ),
        Ok(vec![])
    );
    world.pool = accounts[0].data.clone();
    assert_eq!(world.pool_record().platform_fee_percentage, 50);
    assert!(world.pool_record().is_paused);

    let mut accounts = world.withdraw_accounts(&["t1"]);
    assert_eq!(
        process_instruction(
            &program_id,
            &mut accounts,
            RewardPoolInstruction::WithdrawRewards {
                task_ids: vec!["t1".to_string()],
                expected_nonce: 0,
            },
            7
        ),
        Err(RewardPoolError::RewardPoolPaused)
    );
}
